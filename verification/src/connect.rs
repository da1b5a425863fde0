//! Connecting a TLS stream to the first of several candidate addresses that
//! accepts the connection.
//!
//! The machine activates the LTE link once, tries the candidates in order and
//! deactivates the link once when a candidate has connected or all of them
//! have failed. Every operation on the modem is named as a `ConnectAction`;
//! the caller performs it and reports the outcome as a `ConnectEvent`.

use vstd::prelude::*;
use crate::error::Error;
use crate::socket::{Socket, SocketFamily, SocketOption, SocketProtocol, SocketType};
use crate::tls::PeerVerification;
use crate::tls_stream::TlsStream;

verus! {

/// Which outcome the machine waits for.
#[derive(Debug, Clone, Copy, PartialEq, Eq, Structural)]
pub enum ConnectPhase {
    ActivatingLink,
    CheckingToken,
    CreatingSocket,
    SettingPeerVerify,
    SettingSessionCache,
    SettingTagList,
    Connecting,
    ReleasingSocket,
    ReleasingLinkConnected,
    ReleasingLinkExhausted,
    Finished,
}

/// The outcome of the operation that the machine asked for.
#[derive(Debug, Clone, Copy, PartialEq, Eq, Structural)]
pub enum ConnectEvent {
    /// The operation succeeded.
    Completed,
    /// A socket was created; this is its file descriptor.
    Created(i32),
    /// The state of the cancellation token.
    Token { cancelled: bool },
    /// The operation failed.
    Failed(Error),
}

/// The operation that the caller performs next.
#[derive(Debug, Clone, Copy, PartialEq, Eq)]
pub enum ConnectAction<'a> {
    /// Activate the LTE link.
    ActivateLink,
    /// Report whether the cancellation token has fired.
    CheckToken,
    /// Create a socket for the current candidate.
    CreateSocket { family: SocketFamily, socket_type: SocketType, protocol: SocketProtocol },
    /// Apply an option to the socket.
    SetOption { socket: i32, option: SocketOption<'a> },
    /// Connect the socket to the candidate address with this index; the
    /// handshake is subject to the cancellation token.
    ConnectSocket { socket: i32, candidate: usize },
    /// Deactivate the socket whose connection failed.
    DeactivateSocket { socket: i32 },
    /// Deactivate the LTE link.
    DeactivateLink,
    /// Nothing: the result is ready. What the attempt still holds after an
    /// error is left for the caller to release.
    Done,
}

/// What an attempt still holds on the modem. When the attempt ends with an
/// error, or is abandoned, this is what is left for the caller to release.
#[derive(Debug, Clone, Copy, PartialEq, Eq, Structural)]
pub struct Held {
    /// Whether the LTE link is active on behalf of the attempt.
    pub link: bool,
    /// The socket that was created and has neither been deactivated nor
    /// handed over to the connected stream.
    pub socket: Option<i32>,
}

/// The state of one connection attempt over a list of candidates.
#[derive(Debug)]
pub struct Connect {
    /// The address family of each candidate, in the order they are tried.
    pub families: Vec<SocketFamily>,
    pub peer_verify: PeerVerification,
    pub security_tags: Vec<u32>,
    /// Whether the cancellation token is consulted before each candidate.
    pub cancellable: bool,
    pub phase: ConnectPhase,
    /// Index of the candidate being tried.
    pub candidate: usize,
    /// File descriptor of the current candidate's socket, once created.
    pub socket: i32,
    /// The error of the most recent failed handshake.
    pub last_error: Option<Error>,
    /// How often the machine has asked for the link to be deactivated.
    pub link_deactivations: usize,
    /// Whether the link is active and its deactivation has not been asked for.
    pub link_held: bool,
    /// Whether `socket` is open and neither its deactivation has been asked
    /// for nor the stream has taken it over.
    pub socket_held: bool,
    /// The connected socket or the error, once finished.
    pub result: Option<Result<i32, Error>>,
}

impl Connect {
    pub open spec fn well_formed(&self) -> bool {
        &&& self.families.len() > 0
        &&& self.candidate < self.families.len()
        &&& self.phase == ConnectPhase::Finished <==> self.result is Some
        &&& self.phase == ConnectPhase::ReleasingSocket ==> self.last_error is Some
        &&& self.phase == ConnectPhase::ReleasingLinkExhausted ==> self.last_error is Some
        &&& self.link_deactivations <= 1
        &&& self.before_release() ==> self.link_deactivations == 0
    }

    /// Whether the machine is in a phase that precedes the deactivation of
    /// the link.
    pub open spec fn before_release(&self) -> bool {
        self.phase != ConnectPhase::Finished && self.phase != ConnectPhase::ReleasingLinkConnected
            && self.phase != ConnectPhase::ReleasingLinkExhausted
    }

    /// Whether nothing has happened yet: the machine is well formed and about
    /// to activate the link for its first candidate.
    pub open spec fn fresh(&self) -> bool {
        &&& self.well_formed()
        &&& self.phase == ConnectPhase::ActivatingLink
        &&& self.candidate == 0
        &&& self.last_error is None
        &&& self.link_deactivations == 0
        &&& !self.link_held
        &&& !self.socket_held
    }

    /// What the attempt holds on the modem in this state.
    pub open spec fn held(&self) -> Held {
        Held {
            link: self.link_held,
            socket: if self.socket_held {
                Some(self.socket)
            } else {
                None
            },
        }
    }

    /// The phase in which the attempt on a candidate begins.
    pub open spec fn first_phase(&self) -> ConnectPhase {
        if self.cancellable {
            ConnectPhase::CheckingToken
        } else {
            ConnectPhase::CreatingSocket
        }
    }

    /// The state at the start of the attempt on `candidate`.
    pub open spec fn begun(self, candidate: usize) -> Connect {
        Connect { candidate, phase: self.first_phase(), ..self }
    }

    /// The state in `phase`, all else unchanged.
    pub open spec fn moved(self, phase: ConnectPhase) -> Connect {
        Connect { phase, ..self }
    }

    /// The state when asking for the link to be deactivated, in `phase`.
    pub open spec fn releasing(self, phase: ConnectPhase) -> Connect {
        Connect {
            phase,
            link_deactivations: (self.link_deactivations + 1) as usize,
            link_held: false,
            ..self
        }
    }

    /// The finished state with `result`.
    pub open spec fn finished(self, result: Result<i32, Error>) -> Connect {
        Connect { phase: ConnectPhase::Finished, result: Some(result), ..self }
    }

    /// The operation that the caller performs in this state.
    pub open spec fn action(&self) -> ConnectAction<'_> {
        match self.phase {
            ConnectPhase::ActivatingLink => ConnectAction::ActivateLink,
            ConnectPhase::CheckingToken => ConnectAction::CheckToken,
            ConnectPhase::CreatingSocket => ConnectAction::CreateSocket {
                family: self.families[self.candidate as int],
                socket_type: SocketType::Stream,
                protocol: SocketProtocol::Tls1v2,
            },
            ConnectPhase::SettingPeerVerify => ConnectAction::SetOption {
                socket: self.socket,
                option: SocketOption::TlsPeerVerify(self.peer_verify.level()),
            },
            ConnectPhase::SettingSessionCache => ConnectAction::SetOption {
                socket: self.socket,
                option: SocketOption::TlsSessionCache(0),
            },
            ConnectPhase::SettingTagList => ConnectAction::SetOption {
                socket: self.socket,
                option: SocketOption::TlsTagList(&self.security_tags),
            },
            ConnectPhase::Connecting => ConnectAction::ConnectSocket {
                socket: self.socket,
                candidate: self.candidate,
            },
            ConnectPhase::ReleasingSocket => ConnectAction::DeactivateSocket {
                socket: self.socket,
            },
            ConnectPhase::ReleasingLinkConnected => ConnectAction::DeactivateLink,
            ConnectPhase::ReleasingLinkExhausted => ConnectAction::DeactivateLink,
            ConnectPhase::Finished => ConnectAction::Done,
        }
    }

    /// The state after the pending operation ended with `event`. An event
    /// that cannot be the outcome of the pending operation changes nothing.
    ///
    /// A failure to activate the link, to create or configure a socket, or to
    /// deactivate a socket or the link ends the attempt with that error. A
    /// failed handshake is remembered, its socket is deactivated, and the next
    /// candidate is tried; after the last candidate the link is deactivated
    /// and the remembered error is the result. The link and a socket count as
    /// held from the moment they exist until the machine asks for their
    /// deactivation; the socket that connected passes to the stream.
    pub open spec fn after(self, event: ConnectEvent) -> Connect {
        match (self.phase, event) {
            (ConnectPhase::ActivatingLink, ConnectEvent::Completed) => Connect {
                link_held: true,
                ..self.begun(0)
            },
            (ConnectPhase::CheckingToken, ConnectEvent::Token { cancelled }) => if cancelled {
                self.finished(Err(Error::Cancelled))
            } else {
                self.moved(ConnectPhase::CreatingSocket)
            },
            (ConnectPhase::CreatingSocket, ConnectEvent::Created(socket)) => Connect {
                socket,
                socket_held: true,
                phase: ConnectPhase::SettingPeerVerify,
                ..self
            },
            (ConnectPhase::SettingPeerVerify, ConnectEvent::Completed) => self.moved(
                ConnectPhase::SettingSessionCache,
            ),
            (ConnectPhase::SettingSessionCache, ConnectEvent::Completed) => self.moved(
                ConnectPhase::SettingTagList,
            ),
            (ConnectPhase::SettingTagList, ConnectEvent::Completed) => self.moved(
                ConnectPhase::Connecting,
            ),
            (ConnectPhase::Connecting, ConnectEvent::Completed) => self.releasing(
                ConnectPhase::ReleasingLinkConnected,
            ),
            (ConnectPhase::Connecting, ConnectEvent::Failed(error)) => Connect {
                last_error: Some(error),
                socket_held: false,
                phase: ConnectPhase::ReleasingSocket,
                ..self
            },
            (ConnectPhase::ReleasingSocket, ConnectEvent::Completed) => if self.candidate + 1
                < self.families.len() {
                self.begun((self.candidate + 1) as usize)
            } else {
                self.releasing(ConnectPhase::ReleasingLinkExhausted)
            },
            (ConnectPhase::ReleasingLinkConnected, ConnectEvent::Completed) => Connect {
                socket_held: false,
                ..self.finished(Ok(self.socket))
            },
            (ConnectPhase::ReleasingLinkExhausted, ConnectEvent::Completed) => self.finished(
                Err(self.last_error.unwrap()),
            ),
            (ConnectPhase::Finished, _) => self,
            (ConnectPhase::CheckingToken, _) => self,
            (_, ConnectEvent::Failed(error)) => self.finished(Err(error)),
            _ => self,
        }
    }

    /// A machine that will try the candidates whose address families are
    /// `families`, in that order.
    pub fn new(
        families: Vec<SocketFamily>,
        peer_verify: PeerVerification,
        security_tags: Vec<u32>,
        cancellable: bool,
    ) -> (machine: Connect)
        requires
            families.len() > 0,
        ensures
            machine.fresh(),
            machine.families == families,
            machine.peer_verify == peer_verify,
            machine.security_tags == security_tags,
            machine.cancellable == cancellable,
            machine.result is None,
    {
        Connect {
            families,
            peer_verify,
            security_tags,
            cancellable,
            phase: ConnectPhase::ActivatingLink,
            candidate: 0,
            socket: 0,
            last_error: None,
            link_deactivations: 0,
            link_held: false,
            socket_held: false,
            result: None,
        }
    }

    /// The operation that the caller performs next.
    pub fn next_action(&self) -> (action: ConnectAction<'_>)
        requires
            self.well_formed(),
        ensures
            action == self.action(),
    {
        match self.phase {
            ConnectPhase::ActivatingLink => ConnectAction::ActivateLink,
            ConnectPhase::CheckingToken => ConnectAction::CheckToken,
            ConnectPhase::CreatingSocket => ConnectAction::CreateSocket {
                family: self.families[self.candidate],
                socket_type: SocketType::Stream,
                protocol: SocketProtocol::Tls1v2,
            },
            ConnectPhase::SettingPeerVerify => ConnectAction::SetOption {
                socket: self.socket,
                option: SocketOption::TlsPeerVerify(self.peer_verify.as_integer()),
            },
            ConnectPhase::SettingSessionCache => ConnectAction::SetOption {
                socket: self.socket,
                option: SocketOption::TlsSessionCache(0),
            },
            ConnectPhase::SettingTagList => ConnectAction::SetOption {
                socket: self.socket,
                option: SocketOption::TlsTagList(&self.security_tags),
            },
            ConnectPhase::Connecting => ConnectAction::ConnectSocket {
                socket: self.socket,
                candidate: self.candidate,
            },
            ConnectPhase::ReleasingSocket => ConnectAction::DeactivateSocket {
                socket: self.socket,
            },
            ConnectPhase::ReleasingLinkConnected => ConnectAction::DeactivateLink,
            ConnectPhase::ReleasingLinkExhausted => ConnectAction::DeactivateLink,
            ConnectPhase::Finished => ConnectAction::Done,
        }
    }

    /// Takes the outcome of the operation that `next_action` asked for.
    pub fn step(&mut self, event: ConnectEvent)
        requires
            old(self).well_formed(),
        ensures
            *final(self) == old(self).after(event),
            final(self).well_formed(),
    {
        match (self.phase, event) {
            (ConnectPhase::ActivatingLink, ConnectEvent::Completed) => {
                self.link_held = true;
                self.begin(0);
            },
            (ConnectPhase::CheckingToken, ConnectEvent::Token { cancelled }) => {
                if cancelled {
                    self.finish(Err(Error::Cancelled));
                } else {
                    self.phase = ConnectPhase::CreatingSocket;
                }
            },
            (ConnectPhase::CreatingSocket, ConnectEvent::Created(socket)) => {
                self.socket = socket;
                self.socket_held = true;
                self.phase = ConnectPhase::SettingPeerVerify;
            },
            (ConnectPhase::SettingPeerVerify, ConnectEvent::Completed) => {
                self.phase = ConnectPhase::SettingSessionCache;
            },
            (ConnectPhase::SettingSessionCache, ConnectEvent::Completed) => {
                self.phase = ConnectPhase::SettingTagList;
            },
            (ConnectPhase::SettingTagList, ConnectEvent::Completed) => {
                self.phase = ConnectPhase::Connecting;
            },
            (ConnectPhase::Connecting, ConnectEvent::Completed) => {
                self.release_link(ConnectPhase::ReleasingLinkConnected);
            },
            (ConnectPhase::Connecting, ConnectEvent::Failed(error)) => {
                self.last_error = Some(error);
                self.socket_held = false;
                self.phase = ConnectPhase::ReleasingSocket;
            },
            (ConnectPhase::ReleasingSocket, ConnectEvent::Completed) => {
                if self.candidate + 1 < self.families.len() {
                    self.begin(self.candidate + 1);
                } else {
                    self.release_link(ConnectPhase::ReleasingLinkExhausted);
                }
            },
            (ConnectPhase::ReleasingLinkConnected, ConnectEvent::Completed) => {
                self.socket_held = false;
                self.finish(Ok(self.socket));
            },
            (ConnectPhase::ReleasingLinkExhausted, ConnectEvent::Completed) => {
                let error = self.last_error.unwrap();
                self.finish(Err(error));
            },
            (ConnectPhase::Finished, _) => {},
            (ConnectPhase::CheckingToken, _) => {},
            (_, ConnectEvent::Failed(error)) => {
                self.finish(Err(error));
            },
            _ => {},
        }
    }

    fn begin(&mut self, candidate: usize)
        ensures
            *final(self) == old(self).begun(candidate),
    {
        self.candidate = candidate;
        self.phase = if self.cancellable {
            ConnectPhase::CheckingToken
        } else {
            ConnectPhase::CreatingSocket
        };
    }

    fn release_link(&mut self, phase: ConnectPhase)
        requires
            old(self).link_deactivations == 0,
        ensures
            *final(self) == old(self).releasing(phase),
    {
        self.link_deactivations = self.link_deactivations + 1;
        self.link_held = false;
        self.phase = phase;
    }

    fn finish(&mut self, result: Result<i32, Error>)
        ensures
            *final(self) == old(self).finished(result),
    {
        self.phase = ConnectPhase::Finished;
        self.result = Some(result);
    }

    /// What the attempt holds on the modem. After an error, and when the
    /// attempt is abandoned, the caller releases it.
    pub fn holds(&self) -> (held: Held)
        ensures
            held == self.held(),
    {
        Held {
            link: self.link_held,
            socket: if self.socket_held {
                Some(self.socket)
            } else {
                None
            },
        }
    }

    /// Whether the attempt has ended and `into_result` has its result.
    pub fn is_finished(&self) -> (finished: bool)
        ensures
            finished == (self.phase == ConnectPhase::Finished),
    {
        matches!(self.phase, ConnectPhase::Finished)
    }

    /// The result of a finished attempt: the stream over the connected socket,
    /// or the error. `None` while the attempt has not finished.
    pub fn into_result(self) -> (result: Option<Result<TlsStream, Error>>)
        requires
            self.well_formed(),
        ensures
            match self.result {
                None => result is None,
                Some(Ok(socket)) => result is Some && result.unwrap() is Ok
                    && result.unwrap().unwrap().fd() == socket,
                Some(Err(error)) => result == Some(Err::<TlsStream, Error>(error)),
            },
    {
        match self.result {
            None => None,
            Some(Ok(fd)) => Some(Ok(TlsStream::established(Socket { fd }))),
            Some(Err(error)) => Some(Err(error)),
        }
    }

    /// The state after one whole attempt on the current candidate whose
    /// handshake failed with `error`: the token, where it is consulted, had
    /// not fired, the socket `socket` was created and configured, and it was
    /// deactivated after the failure.
    pub open spec fn after_failed_attempt(self, socket: i32, error: Error) -> Connect {
        self.after_setup(socket).after(ConnectEvent::Failed(error)).after(ConnectEvent::Completed)
    }

    /// The state after the token, where it is consulted, had not fired and
    /// the socket `socket` was created and configured for the current
    /// candidate: the handshake is pending.
    pub open spec fn after_setup(self, socket: i32) -> Connect {
        let checked = if self.cancellable {
            self.after(ConnectEvent::Token { cancelled: false })
        } else {
            self
        };
        checked.after(ConnectEvent::Created(socket)).after(ConnectEvent::Completed).after(
            ConnectEvent::Completed,
        ).after(ConnectEvent::Completed)
    }

    /// The state after one failed attempt for each entry of `errors`, on the
    /// sockets `sockets`.
    pub open spec fn after_failures(self, sockets: Seq<i32>, errors: Seq<Error>) -> Connect
        decreases errors.len(),
    {
        if errors.len() == 0 || sockets.len() != errors.len() {
            self
        } else {
            self.after_failures(sockets.drop_last(), errors.drop_last()).after_failed_attempt(
                sockets.last(),
                errors.last(),
            )
        }
    }

    /// After the link came up and the first candidates failed one after the
    /// other, the machine stands at the start of the next candidate with the
    /// last error remembered and the link still active; after the last
    /// candidate it has asked, once, for the link to be deactivated. Either
    /// way no socket of a failed candidate is left open.
    pub proof fn lemma_after_failures(start: Connect, sockets: Seq<i32>, errors: Seq<Error>)
        requires
            start.fresh(),
            sockets.len() == errors.len(),
            errors.len() <= start.families.len(),
        ensures
            ({
                let now = start.after(ConnectEvent::Completed).after_failures(sockets, errors);
                &&& now.well_formed()
                &&& now.families == start.families
                &&& now.peer_verify == start.peer_verify
                &&& now.security_tags == start.security_tags
                &&& now.cancellable == start.cancellable
                &&& errors.len() > 0 ==> now.last_error == Some(errors.last())
                &&& errors.len() < start.families.len() ==> now.phase == start.first_phase()
                    && now.candidate == errors.len() && now.link_deactivations == 0
                    && now.held() == (Held { link: true, socket: None })
                &&& errors.len() == start.families.len() ==> now.phase
                    == ConnectPhase::ReleasingLinkExhausted && now.link_deactivations == 1
                    && now.held() == (Held { link: false, socket: None })
            }),
        decreases errors.len(),
    {
        if errors.len() > 0 {
            Self::lemma_after_failures(start, sockets.drop_last(), errors.drop_last());
        }
    }

    /// When the candidates before candidate `k` fail and candidate `k`
    /// connects, the attempt finishes with the socket that was created for
    /// candidate `k`, the link was deactivated exactly once, and nothing is
    /// left for the caller to release. Here `k` is the number of `errors`,
    /// `sockets` are the sockets of the failed candidates and `socket` is the
    /// one created for candidate `k`.
    pub proof fn lemma_first_success_wins(
        start: Connect,
        sockets: Seq<i32>,
        errors: Seq<Error>,
        socket: i32,
    )
        requires
            start.fresh(),
            sockets.len() == errors.len(),
            errors.len() < start.families.len(),
        ensures
            ({
                let reached = start.after(ConnectEvent::Completed).after_failures(sockets, errors);
                let connecting = reached.after_setup(socket);
                let end = connecting.after(ConnectEvent::Completed).after(ConnectEvent::Completed);
                &&& reached.candidate == errors.len()
                &&& connecting.action() == (ConnectAction::ConnectSocket {
                    socket,
                    candidate: errors.len() as usize,
                })
                &&& connecting.after(ConnectEvent::Completed).action()
                    == ConnectAction::DeactivateLink
                &&& end.phase == ConnectPhase::Finished
                &&& end.result == Some(Ok::<i32, Error>(socket))
                &&& end.link_deactivations == 1
                &&& end.held() == (Held { link: false, socket: None })
            }),
    {
        Self::lemma_after_failures(start, sockets, errors);
    }

    /// When every candidate fails, the attempt finishes with the error of the
    /// last candidate, the link was deactivated exactly once, and nothing is
    /// left for the caller to release.
    pub proof fn lemma_all_fail_returns_last_error(
        start: Connect,
        sockets: Seq<i32>,
        errors: Seq<Error>,
    )
        requires
            start.fresh(),
            sockets.len() == errors.len(),
            errors.len() == start.families.len(),
        ensures
            ({
                let exhausted = start.after(ConnectEvent::Completed).after_failures(
                    sockets,
                    errors,
                );
                let end = exhausted.after(ConnectEvent::Completed);
                &&& exhausted.action() == ConnectAction::DeactivateLink
                &&& end.phase == ConnectPhase::Finished
                &&& end.result == Some(Err::<i32, Error>(errors.last()))
                &&& end.link_deactivations == 1
                &&& end.held() == (Held { link: false, socket: None })
            }),
    {
        Self::lemma_after_failures(start, sockets, errors);
    }

    /// The link is activated once per attempt: the machine asks for it only
    /// in its first state and never returns to that state.
    pub proof fn lemma_link_activated_once(state: Connect, event: ConnectEvent)
        requires
            state.well_formed(),
        ensures
            state.action() == ConnectAction::ActivateLink <==> state.phase
                == ConnectPhase::ActivatingLink,
            state.after(event).phase == ConnectPhase::ActivatingLink ==> state.after(event)
                == state,
    {
    }

    /// The machine asks for the link to be deactivated at most once, whatever
    /// the events: the count never exceeds one, and it only changes when the
    /// machine moves on to deactivate the link.
    pub proof fn lemma_link_deactivated_at_most_once(state: Connect, event: ConnectEvent)
        requires
            state.well_formed(),
        ensures
            state.after(event).well_formed(),
            state.after(event).link_deactivations <= 1,
            state.after(event).link_deactivations != state.link_deactivations ==> state.action()
                != ConnectAction::DeactivateLink && state.after(event).action()
                == ConnectAction::DeactivateLink,
    {
    }

    /// A token that has fired when a candidate's attempt begins ends the
    /// attempt with `Cancelled`: no socket is created for that candidate and
    /// nothing more is asked of the modem.
    pub proof fn lemma_cancelled_before_attempt(state: Connect)
        requires
            state.well_formed(),
            state.phase == ConnectPhase::CheckingToken,
        ensures
            state.after(ConnectEvent::Token { cancelled: true }).action() == ConnectAction::Done,
            state.after(ConnectEvent::Token { cancelled: true }).result == Some(
                Err::<i32, Error>(Error::Cancelled),
            ),
    {
    }
}

} // verus!
