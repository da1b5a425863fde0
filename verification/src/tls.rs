//! TLS settings shared by the secure socket kinds.

use vstd::prelude::*;

verus! {

/// How strictly the identity of the peer is checked during the handshake.
#[derive(Debug, Copy, Clone, PartialEq, Eq, Structural)]
pub enum PeerVerification {
    Enabled,
    Optional,
    Disabled,
}

impl PeerVerification {
    /// The value of the modem's peer-verification socket option.
    pub open spec fn level(self) -> u32 {
        match self {
            PeerVerification::Enabled => 2,
            PeerVerification::Optional => 1,
            PeerVerification::Disabled => 0,
        }
    }

    pub fn as_integer(self) -> (n: u32)
        ensures
            n == self.level(),
    {
        match self {
            PeerVerification::Enabled => 2,
            PeerVerification::Optional => 1,
            PeerVerification::Disabled => 0,
        }
    }

    /// The policies and the option values 0, 1 and 2 correspond one to one:
    /// two policies with the same value are the same policy, every policy's
    /// value is at most 2, and each of 0, 1 and 2 is the value of a policy.
    pub proof fn lemma_level_is_bijective(a: PeerVerification, b: PeerVerification, n: u32)
        ensures
            a.level() == b.level() ==> a == b,
            a.level() <= 2,
            n <= 2 ==> exists|p: PeerVerification| #[trigger] p.level() == n,
    {
        assert(PeerVerification::Disabled.level() == 0);
        assert(PeerVerification::Optional.level() == 1);
        assert(PeerVerification::Enabled.level() == 2);
    }
}

} // verus!
