//! A TLS stream over a connected socket of the modem, and its read and write
//! halves.

use vstd::prelude::*;
use crate::connect::Connect;
use crate::error::Error;
use crate::socket::{candidate_families, family_of, Socket, SplitSocketHandle};
use crate::tls::PeerVerification;
use crate::transfer::{chunk_of, receive_window, ReceiveExact, WriteAll};

verus! {

/// A TLS (TCP) stream that is connected to another endpoint. It is the only
/// owner of its socket.
#[derive(Debug)]
pub struct TlsStream {
    inner: Socket,
}

/// A borrowed read half of a TLS stream.
#[derive(Debug)]
pub struct TlsReadStream<'a> {
    stream: &'a TlsStream,
}

/// A borrowed write half of a TLS stream.
#[derive(Debug)]
pub struct TlsWriteStream<'a> {
    stream: &'a TlsStream,
}

/// An owned read half of a TLS stream.
#[derive(Debug)]
pub struct OwnedTlsReadStream {
    stream: SplitSocketHandle,
}

/// An owned write half of a TLS stream.
#[derive(Debug)]
pub struct OwnedTlsWriteStream {
    stream: SplitSocketHandle,
}

impl TlsStream {
    /// The file descriptor of the socket that the stream owns.
    pub closed spec fn fd(&self) -> i32 {
        self.inner.fd
    }

    /// The stream over a socket whose handshake has completed.
    pub(crate) fn established(socket: Socket) -> (stream: TlsStream)
        ensures
            stream.fd() == socket.fd,
    {
        TlsStream { inner: socket }
    }

    /// Begins connecting a TLS stream to the first of `addrs` that accepts the
    /// connection. The attempt cannot be cancelled: the returned machine never
    /// asks for the cancellation token.
    pub fn connect(
        addrs: &Vec<no_std_net::SocketAddr>,
        peer_verify: PeerVerification,
        security_tags: Vec<u32>,
    ) -> (machine: Connect)
        requires
            addrs.len() > 0,
        ensures
            machine.fresh(),
            !machine.cancellable,
            machine.peer_verify == peer_verify,
            machine.security_tags == security_tags,
            machine.families.len() == addrs.len(),
            forall|i: int|
                0 <= i < addrs.len() ==> machine.families[i] == family_of(#[trigger] addrs[i]),
    {
        Connect::new(candidate_families(addrs), peer_verify, security_tags, false)
    }

    /// Begins connecting a TLS stream to the first of `addrs` that accepts the
    /// connection. The returned machine asks for the cancellation token before
    /// each candidate and gives up once it has fired.
    pub fn connect_with_cancellation(
        addrs: &Vec<no_std_net::SocketAddr>,
        peer_verify: PeerVerification,
        security_tags: Vec<u32>,
    ) -> (machine: Connect)
        requires
            addrs.len() > 0,
        ensures
            machine.fresh(),
            machine.cancellable,
            machine.peer_verify == peer_verify,
            machine.security_tags == security_tags,
            machine.families.len() == addrs.len(),
            forall|i: int|
                0 <= i < addrs.len() ==> machine.families[i] == family_of(#[trigger] addrs[i]),
    {
        Connect::new(candidate_families(addrs), peer_verify, security_tags, true)
    }

    /// The raw underlying file descriptor, for direct use of the modem's
    /// library. The stream keeps its socket.
    pub fn as_raw_fd(&self) -> (fd: i32)
        ensures
            fd == self.fd(),
    {
        self.inner.as_raw_fd()
    }

    /// The socket that the stream's operations are performed on.
    pub fn socket(&self) -> (socket: &Socket)
        ensures
            socket.fd == self.fd(),
    {
        &self.inner
    }

    /// Turns the stream into an owned read and write half, given what the
    /// modem answered when asked to split the stream's socket: the read and
    /// the write handle, or its error. The stream is gone either way.
    pub fn split_owned(
        self,
        handles: Result<(SplitSocketHandle, SplitSocketHandle), Error>,
    ) -> (halves: Result<(OwnedTlsReadStream, OwnedTlsWriteStream), Error>)
        ensures
            match handles {
                Ok((read, write)) => halves is Ok && halves.unwrap().0.fd() == read.socket.fd
                    && halves.unwrap().1.fd() == write.socket.fd,
                Err(error) => halves is Err && halves.unwrap_err() == error,
            },
    {
        match handles {
            Ok((read_split, write_split)) => Ok(
                (
                    OwnedTlsReadStream { stream: read_split },
                    OwnedTlsWriteStream { stream: write_split },
                ),
            ),
            Err(error) => Err(error),
        }
    }

    /// Splits the stream into a borrowed read and write half. Both halves work
    /// on the stream's own socket; nothing changes on the modem.
    pub fn split(&self) -> (halves: (TlsReadStream<'_>, TlsWriteStream<'_>))
        ensures
            halves.0.fd() == self.fd(),
            halves.1.fd() == self.fd(),
    {
        (TlsReadStream { stream: self }, TlsWriteStream { stream: self })
    }

    /// How many bytes one receive into a buffer of `buf_len` bytes asks the
    /// stream's socket for.
    pub fn receive(&self, buf_len: usize) -> (window: usize)
        ensures
            window == chunk_of(buf_len as int),
    {
        receive_window(buf_len)
    }

    /// Begins filling a buffer of `buf_len` bytes from the stream's socket.
    pub fn receive_exact(&self, buf_len: usize) -> (transfer: ReceiveExact)
        ensures
            transfer == ReceiveExact::initial(buf_len),
    {
        ReceiveExact::new(buf_len)
    }

    /// Begins writing a buffer of `buf_len` bytes to the stream's socket.
    pub fn write(&self, buf_len: usize) -> (transfer: WriteAll)
        ensures
            transfer == WriteAll::initial(buf_len),
    {
        WriteAll::new(buf_len)
    }

    /// Gives up the stream and hands out its socket, for the caller to
    /// deactivate it.
    pub fn deactivate(self) -> (socket: Socket)
        ensures
            socket.fd == self.fd(),
    {
        self.inner
    }
}

impl<'a> TlsReadStream<'a> {
    /// The file descriptor of the socket of the stream that this half borrows.
    pub closed spec fn fd(&self) -> i32 {
        self.stream.fd()
    }

    /// The socket that this half receives from.
    pub fn socket(&self) -> (socket: &Socket)
        ensures
            socket.fd == self.fd(),
    {
        &self.stream.inner
    }

    /// How many bytes one receive into a buffer of `buf_len` bytes asks the
    /// socket for.
    pub fn receive(&self, buf_len: usize) -> (window: usize)
        ensures
            window == chunk_of(buf_len as int),
    {
        receive_window(buf_len)
    }

    /// Begins filling a buffer of `buf_len` bytes from the socket.
    pub fn receive_exact(&self, buf_len: usize) -> (transfer: ReceiveExact)
        ensures
            transfer == ReceiveExact::initial(buf_len),
    {
        ReceiveExact::new(buf_len)
    }
}

impl<'a> TlsWriteStream<'a> {
    /// The file descriptor of the socket of the stream that this half borrows.
    pub closed spec fn fd(&self) -> i32 {
        self.stream.fd()
    }

    /// The socket that this half writes to.
    pub fn socket(&self) -> (socket: &Socket)
        ensures
            socket.fd == self.fd(),
    {
        &self.stream.inner
    }

    /// Begins writing a buffer of `buf_len` bytes to the socket.
    pub fn write(&self, buf_len: usize) -> (transfer: WriteAll)
        ensures
            transfer == WriteAll::initial(buf_len),
    {
        WriteAll::new(buf_len)
    }
}

impl OwnedTlsReadStream {
    /// The file descriptor of the handle that this half owns.
    pub closed spec fn fd(&self) -> i32 {
        self.stream.socket.fd
    }

    /// The socket that this half receives from.
    pub fn socket(&self) -> (socket: &Socket)
        ensures
            socket.fd == self.fd(),
    {
        &self.stream.socket
    }

    /// How many bytes one receive into a buffer of `buf_len` bytes asks the
    /// socket for.
    pub fn receive(&self, buf_len: usize) -> (window: usize)
        ensures
            window == chunk_of(buf_len as int),
    {
        receive_window(buf_len)
    }

    /// Begins filling a buffer of `buf_len` bytes from the socket.
    pub fn receive_exact(&self, buf_len: usize) -> (transfer: ReceiveExact)
        ensures
            transfer == ReceiveExact::initial(buf_len),
    {
        ReceiveExact::new(buf_len)
    }

    /// Gives up this half and hands out its handle, for the caller to
    /// deactivate it. The other half is not touched.
    pub fn deactivate(self) -> (handle: SplitSocketHandle)
        ensures
            handle.socket.fd == self.fd(),
    {
        self.stream
    }
}

impl OwnedTlsWriteStream {
    /// The file descriptor of the handle that this half owns.
    pub closed spec fn fd(&self) -> i32 {
        self.stream.socket.fd
    }

    /// The socket that this half writes to.
    pub fn socket(&self) -> (socket: &Socket)
        ensures
            socket.fd == self.fd(),
    {
        &self.stream.socket
    }

    /// Begins writing a buffer of `buf_len` bytes to the socket.
    pub fn write(&self, buf_len: usize) -> (transfer: WriteAll)
        ensures
            transfer == WriteAll::initial(buf_len),
    {
        WriteAll::new(buf_len)
    }

    /// Gives up this half and hands out its handle, for the caller to
    /// deactivate it. The other half is not touched.
    pub fn deactivate(self) -> (handle: SplitSocketHandle)
        ensures
            handle.socket.fd == self.fd(),
    {
        self.stream
    }
}

} // verus!
