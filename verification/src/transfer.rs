//! Chunked transfers: filling a whole buffer and writing a whole buffer
//! through a socket that moves at most 1024 bytes per operation.
//!
//! Both transfers are state machines over counts. A machine names the range of
//! the caller's buffer that the next socket operation works on; the caller
//! performs the operation and reports how many bytes it moved, or its error.
//! The first error ends a transfer: nothing is retried.

use vstd::prelude::*;
use crate::error::Error;

verus! {

/// The most bytes that one socket operation is asked to move.
pub const MAX_CHUNK: usize = 1024;

/// The length of the next chunk when `remaining` bytes are still to move.
pub open spec fn chunk_of(remaining: int) -> int {
    if remaining < 1024 {
        remaining
    } else {
        1024
    }
}

/// The length of the next chunk when `remaining` bytes are still to move: all
/// of them, but never more than `MAX_CHUNK`.
pub fn chunk_len(remaining: usize) -> (n: usize)
    ensures
        n == chunk_of(remaining as int),
{
    if remaining < MAX_CHUNK {
        remaining
    } else {
        MAX_CHUNK
    }
}

/// How many bytes a single receive into a buffer of `buf_len` bytes asks the
/// socket for. The socket writes into the first `n` bytes of the buffer, and
/// the data received is the prefix that it reports as written.
pub fn receive_window(buf_len: usize) -> (n: usize)
    ensures
        n == chunk_of(buf_len as int),
        n <= buf_len,
        n <= MAX_CHUNK,
{
    chunk_len(buf_len)
}

/// What a receive asks of its caller next.
#[derive(Debug, Clone, Copy, PartialEq, Eq, Structural)]
pub enum ReceiveAction {
    /// Receive from the socket into `len` bytes of the buffer, starting at
    /// `offset`.
    Receive { offset: usize, len: usize },
    /// The buffer is full.
    Complete,
    /// The receive ended with `error`; the first `filled` bytes of the buffer
    /// hold what was received before it.
    Failed { error: Error, filled: usize },
}

/// What a write asks of its caller next.
#[derive(Debug, Clone, Copy, PartialEq, Eq, Structural)]
pub enum WriteAction {
    /// Write `len` bytes of the buffer to the socket, starting at `offset`.
    Write { offset: usize, len: usize },
    /// Every byte of the buffer has been written.
    Complete,
    /// The write ended with `error`. How much was written before it is not
    /// told.
    Failed { error: Error },
}

/// Progress of a receive that fills a buffer of `len` bytes completely.
#[derive(Debug, Clone, Copy, PartialEq, Eq, Structural)]
pub struct ReceiveExact {
    /// Length of the buffer to fill.
    pub len: usize,
    /// Bytes received so far: the buffer is filled up to here.
    pub filled: usize,
    /// The error that ended the transfer, if one did.
    pub failure: Option<Error>,
}

impl ReceiveExact {
    pub open spec fn well_formed(self) -> bool {
        self.filled <= self.len
    }

    /// The state before anything was received.
    pub open spec fn initial(len: usize) -> ReceiveExact {
        ReceiveExact { len, filled: 0, failure: None }
    }

    /// What the caller does next in this state.
    pub open spec fn action(self) -> ReceiveAction {
        match self.failure {
            Some(error) => ReceiveAction::Failed { error, filled: self.filled },
            None => if self.filled < self.len {
                ReceiveAction::Receive {
                    offset: self.filled,
                    len: chunk_of(self.len - self.filled) as usize,
                }
            } else {
                ReceiveAction::Complete
            },
        }
    }

    /// Whether the transfer still waits for the outcome of a socket operation.
    pub open spec fn pending(self) -> bool {
        self.failure is None && self.filled < self.len
    }

    /// Whether `outcome` can be the outcome of a receive into the unfilled
    /// rest of the buffer: a byte count is at most the length of that rest.
    pub open spec fn admits(self, outcome: Result<usize, Error>) -> bool {
        match outcome {
            Ok(n) => n <= self.len - self.filled,
            Err(_) => true,
        }
    }

    /// The state after the pending socket operation ended with `outcome`. A
    /// transfer that is not pending stays as it is.
    pub open spec fn after(self, outcome: Result<usize, Error>) -> ReceiveExact {
        if !self.pending() {
            self
        } else {
            match outcome {
                Ok(n) => ReceiveExact { filled: (self.filled + n) as usize, ..self },
                Err(error) => ReceiveExact { failure: Some(error), ..self },
            }
        }
    }

    /// Starts filling a buffer of `len` bytes.
    pub fn new(len: usize) -> (state: ReceiveExact)
        ensures
            state == Self::initial(len),
            state.well_formed(),
    {
        ReceiveExact { len, filled: 0, failure: None }
    }

    /// What the caller does next: receive into the next chunk of the unfilled
    /// rest, or stop with the transfer's result.
    pub fn next_action(&self) -> (action: ReceiveAction)
        requires
            self.well_formed(),
        ensures
            action == self.action(),
            action matches ReceiveAction::Receive { offset, len } ==> 0 < len <= MAX_CHUNK
                && offset + len <= self.len,
    {
        match self.failure {
            Some(error) => ReceiveAction::Failed { error, filled: self.filled },
            None => if self.filled < self.len {
                ReceiveAction::Receive {
                    offset: self.filled,
                    len: chunk_len(self.len - self.filled),
                }
            } else {
                ReceiveAction::Complete
            },
        }
    }

    /// Takes the outcome of the socket operation that `next_action` asked for.
    pub fn step(&mut self, outcome: Result<usize, Error>)
        requires
            old(self).well_formed(),
            old(self).pending() ==> old(self).admits(outcome),
        ensures
            *final(self) == old(self).after(outcome),
            final(self).well_formed(),
    {
        if self.failure.is_none() && self.filled < self.len {
            match outcome {
                Ok(n) => {
                    self.filled = self.filled + n;
                },
                Err(error) => {
                    self.failure = Some(error);
                },
            }
        }
    }

    /// The first error ends the receive at once, a fired cancellation token
    /// like any other: the transfer reports the error with the bytes received
    /// so far, asks for no further socket operation, and later outcomes
    /// change nothing.
    pub proof fn lemma_first_failure_ends_receive(
        state: ReceiveExact,
        error: Error,
        later: Result<usize, Error>,
    )
        requires
            state.well_formed(),
            state.pending(),
        ensures
            state.after(Err(error)).action() == (ReceiveAction::Failed {
                error,
                filled: state.filled,
            }),
            state.after(Err(error)).after(later) == state.after(Err(error)),
    {
    }

    /// The buffer after a socket operation wrote `chunk` at the place that
    /// this state's action names.
    pub open spec fn deliver(self, buf: Seq<u8>, chunk: Seq<u8>) -> Seq<u8> {
        buf.subrange(0, self.filled as int) + chunk + buf.subrange(
            self.filled + chunk.len(),
            buf.len() as int,
        )
    }

    /// Whether each chunk of `chunks`, received in turn from this state on, is
    /// no longer than the chunk that the transfer asked for.
    pub open spec fn respected_by(self, chunks: Seq<Seq<u8>>) -> bool
        decreases chunks.len(),
    {
        chunks.len() > 0 ==> {
            &&& self.drained(chunks.drop_last()).pending()
            &&& chunks.last().len() <= chunk_of(
                self.len - self.drained(chunks.drop_last()).filled,
            )
            &&& self.respected_by(chunks.drop_last())
        }
    }

    /// The state after the socket delivered `chunks`, one per operation.
    pub open spec fn drained(self, chunks: Seq<Seq<u8>>) -> ReceiveExact
        decreases chunks.len(),
    {
        if chunks.len() == 0 {
            self
        } else {
            self.drained(chunks.drop_last()).after(Ok(chunks.last().len() as usize))
        }
    }

    /// The buffer after the socket delivered `chunks`, each written where the
    /// transfer asked for it.
    pub open spec fn buffer_after(self, buf: Seq<u8>, chunks: Seq<Seq<u8>>) -> Seq<u8>
        decreases chunks.len(),
    {
        if chunks.len() == 0 {
            buf
        } else {
            self.drained(chunks.drop_last()).deliver(
                self.buffer_after(buf, chunks.drop_last()),
                chunks.last(),
            )
        }
    }

    /// While the socket respects the chunk lengths asked of it, the filled
    /// part of the buffer is the concatenation of everything received, in
    /// order, and the transfer has counted exactly those bytes.
    pub proof fn lemma_filled_is_concatenation(len: usize, buf: Seq<u8>, chunks: Seq<Seq<u8>>)
        requires
            buf.len() == len,
            Self::initial(len).respected_by(chunks),
        ensures
            Self::initial(len).drained(chunks).well_formed(),
            Self::initial(len).drained(chunks).failure is None,
            Self::initial(len).drained(chunks).len == len,
            Self::initial(len).drained(chunks).filled == chunks.flatten().len(),
            Self::initial(len).buffer_after(buf, chunks).len() == len,
            Self::initial(len).buffer_after(buf, chunks).subrange(
                0,
                chunks.flatten().len() as int,
            ) == chunks.flatten(),
        decreases chunks.len(),
    {
        let start = Self::initial(len);
        if chunks.len() == 0 {
            assert(chunks.flatten() =~= Seq::<u8>::empty());
            assert(buf.subrange(0, 0) =~= Seq::<u8>::empty());
        } else {
            let front = chunks.drop_last();
            let chunk = chunks.last();
            Self::lemma_filled_is_concatenation(len, buf, front);
            let before = start.drained(front);
            let held = start.buffer_after(buf, front);
            assert(chunks =~= front.push(chunk));
            front.lemma_flatten_push(chunk);
            assert(chunks.flatten() == front.flatten() + chunk);
            let now = before.deliver(held, chunk);
            assert(now.subrange(0, chunks.flatten().len() as int) =~= held.subrange(
                0,
                front.flatten().len() as int,
            ) + chunk);
        }
    }

    /// A socket that respects the chunk lengths asked of it and supplies as
    /// many bytes as the buffer holds, over any number of operations, completes
    /// the transfer, and the buffer then holds the concatenation of what was
    /// received, in order.
    pub proof fn lemma_receive_exact_fills_buffer(len: usize, buf: Seq<u8>, chunks: Seq<Seq<u8>>)
        requires
            buf.len() == len,
            Self::initial(len).respected_by(chunks),
            chunks.flatten().len() == len,
        ensures
            Self::initial(len).drained(chunks).action() == ReceiveAction::Complete,
            Self::initial(len).buffer_after(buf, chunks) == chunks.flatten(),
    {
        Self::lemma_filled_is_concatenation(len, buf, chunks);
        let held = Self::initial(len).buffer_after(buf, chunks);
        assert(held.subrange(0, len as int) =~= held);
    }

    /// When a receive fails after the socket delivered `chunks`, short of
    /// the whole buffer, the transfer ends with that error and the number of
    /// bytes received so far, and the buffer starts with exactly those bytes.
    pub proof fn lemma_failure_keeps_prefix(
        len: usize,
        buf: Seq<u8>,
        chunks: Seq<Seq<u8>>,
        error: Error,
    )
        requires
            buf.len() == len,
            Self::initial(len).respected_by(chunks),
            chunks.flatten().len() < len,
        ensures
            Self::initial(len).drained(chunks).after(Err(error)).action()
                == (ReceiveAction::Failed { error, filled: chunks.flatten().len() as usize }),
            Self::initial(len).buffer_after(buf, chunks).subrange(
                0,
                chunks.flatten().len() as int,
            ) == chunks.flatten(),
    {
        Self::lemma_filled_is_concatenation(len, buf, chunks);
    }
}

/// Progress of a write that sends a buffer of `len` bytes completely.
#[derive(Debug, Clone, Copy, PartialEq, Eq, Structural)]
pub struct WriteAll {
    /// Length of the buffer to send.
    pub len: usize,
    /// Bytes that the socket has accepted so far.
    pub written: usize,
    /// The error that ended the transfer, if one did.
    pub failure: Option<Error>,
}

impl WriteAll {
    pub open spec fn well_formed(self) -> bool {
        self.written <= self.len
    }

    /// The state before anything was written.
    pub open spec fn initial(len: usize) -> WriteAll {
        WriteAll { len, written: 0, failure: None }
    }

    /// What the caller does next in this state. A failed write does not say
    /// how much was written before the error.
    pub open spec fn action(self) -> WriteAction {
        match self.failure {
            Some(error) => WriteAction::Failed { error },
            None => if self.written < self.len {
                WriteAction::Write {
                    offset: self.written,
                    len: chunk_of(self.len - self.written) as usize,
                }
            } else {
                WriteAction::Complete
            },
        }
    }

    /// Whether the transfer still waits for the outcome of a socket operation.
    pub open spec fn pending(self) -> bool {
        self.failure is None && self.written < self.len
    }

    /// The state after the pending socket operation ended with `outcome`. A
    /// socket that claims to have written more than the rest of the buffer
    /// has written all of it. A transfer that is not pending stays as it is.
    pub open spec fn after(self, outcome: Result<usize, Error>) -> WriteAll {
        if !self.pending() {
            self
        } else {
            match outcome {
                Ok(n) => if n >= self.len - self.written {
                    WriteAll { written: self.len, ..self }
                } else {
                    WriteAll { written: (self.written + n) as usize, ..self }
                },
                Err(error) => WriteAll { failure: Some(error), ..self },
            }
        }
    }

    /// Starts sending a buffer of `len` bytes.
    pub fn new(len: usize) -> (state: WriteAll)
        ensures
            state == Self::initial(len),
            state.well_formed(),
    {
        WriteAll { len, written: 0, failure: None }
    }

    /// What the caller does next: write the next chunk of the unsent rest, or
    /// stop with the transfer's result. No chunk is longer than `MAX_CHUNK`.
    pub fn next_action(&self) -> (action: WriteAction)
        requires
            self.well_formed(),
        ensures
            action == self.action(),
            action matches WriteAction::Write { offset, len } ==> 0 < len <= MAX_CHUNK
                && offset + len <= self.len,
    {
        match self.failure {
            Some(error) => WriteAction::Failed { error },
            None => if self.written < self.len {
                WriteAction::Write {
                    offset: self.written,
                    len: chunk_len(self.len - self.written),
                }
            } else {
                WriteAction::Complete
            },
        }
    }

    /// Takes the outcome of the socket operation that `next_action` asked for.
    pub fn step(&mut self, outcome: Result<usize, Error>)
        requires
            old(self).well_formed(),
        ensures
            *final(self) == old(self).after(outcome),
            final(self).well_formed(),
    {
        if self.failure.is_none() && self.written < self.len {
            match outcome {
                Ok(n) => {
                    if n >= self.len - self.written {
                        self.written = self.len;
                    } else {
                        self.written = self.written + n;
                    }
                },
                Err(error) => {
                    self.failure = Some(error);
                },
            }
        }
    }

    /// The first error ends the write at once, a fired cancellation token
    /// like any other: the transfer reports the error, asks for no further
    /// socket operation, and later outcomes change nothing.
    pub proof fn lemma_first_failure_ends_write(
        state: WriteAll,
        error: Error,
        later: Result<usize, Error>,
    )
        requires
            state.well_formed(),
            state.pending(),
        ensures
            state.after(Err(error)).action() == (WriteAction::Failed { error }),
            state.after(Err(error)).after(later) == state.after(Err(error)),
    {
    }

    /// The state after the socket accepted `counts` bytes, one count per
    /// operation.
    pub open spec fn accepted(self, counts: Seq<usize>) -> WriteAll
        decreases counts.len(),
    {
        if counts.len() == 0 {
            self
        } else {
            self.accepted(counts.drop_last()).after(Ok(counts.last()))
        }
    }

    /// Whether each count of `counts`, reported in turn from this state on,
    /// answers a pending write and is no more than the chunk that was offered.
    pub open spec fn respected_by(self, counts: Seq<usize>) -> bool
        decreases counts.len(),
    {
        counts.len() > 0 ==> {
            &&& self.accepted(counts.drop_last()).pending()
            &&& counts.last() <= chunk_of(self.len - self.accepted(counts.drop_last()).written)
            &&& self.respected_by(counts.drop_last())
        }
    }

    /// The sum of `counts`.
    pub open spec fn total(counts: Seq<usize>) -> int
        decreases counts.len(),
    {
        if counts.len() == 0 {
            0
        } else {
            Self::total(counts.drop_last()) + counts.last()
        }
    }

    /// While the socket accepts no more than it is offered, the transfer has
    /// counted exactly the sum of what the socket accepted, and every
    /// operation was offered at most `MAX_CHUNK` bytes.
    pub proof fn lemma_written_is_total(len: usize, counts: Seq<usize>)
        requires
            Self::initial(len).respected_by(counts),
        ensures
            Self::initial(len).accepted(counts).well_formed(),
            Self::initial(len).accepted(counts).failure is None,
            Self::initial(len).accepted(counts).len == len,
            Self::initial(len).accepted(counts).written == Self::total(counts),
            forall|i: int| 0 <= i < counts.len() ==> #[trigger] counts[i] <= MAX_CHUNK,
        decreases counts.len(),
    {
        if counts.len() > 0 {
            let front = counts.drop_last();
            Self::lemma_written_is_total(len, front);
            assert forall|i: int| 0 <= i < counts.len() implies #[trigger] counts[i]
                <= MAX_CHUNK by {
                if i < front.len() {
                    assert(counts[i] == front[i]);
                }
            }
        }
    }

    /// A write of more than `MAX_CHUNK` bytes takes more than one socket
    /// operation; and when it completes against a socket that accepts no more
    /// than it is offered, the bytes accepted over all operations add up to
    /// the buffer's length.
    pub proof fn lemma_long_write_is_chunked(len: usize, counts: Seq<usize>)
        requires
            Self::initial(len).respected_by(counts),
            Self::initial(len).accepted(counts).action() == WriteAction::Complete,
        ensures
            Self::total(counts) == len,
            len > MAX_CHUNK ==> counts.len() >= 2,
    {
        Self::lemma_written_is_total(len, counts);
        if len > MAX_CHUNK && counts.len() < 2 {
            if counts.len() == 1 {
                assert(counts.drop_last().len() == 0);
                assert(Self::total(counts.drop_last()) == 0);
                assert(counts[0] <= MAX_CHUNK);
            }
        }
    }
}

} // verus!
