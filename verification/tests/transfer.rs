use secure_stream::error::Error;
use secure_stream::tls::PeerVerification;
use secure_stream::transfer::{
    chunk_len, receive_window, ReceiveAction, ReceiveExact, WriteAction, WriteAll, MAX_CHUNK,
};

/// A socket that hands out `source` in pieces of at most `piece` bytes and
/// fails with `failure` once `fail_at` bytes have been handed out.
struct Feed {
    source: Vec<u8>,
    sent: usize,
    piece: usize,
    fail_at: Option<(usize, Error)>,
    calls: usize,
}

impl Feed {
    fn receive(&mut self, buf: &mut [u8]) -> Result<usize, Error> {
        self.calls += 1;
        if let Some((at, error)) = self.fail_at {
            if self.sent >= at {
                return Err(error);
            }
        }
        let mut n = buf.len().min(self.piece).min(self.source.len() - self.sent);
        if let Some((at, _)) = self.fail_at {
            n = n.min(at - self.sent);
        }
        buf[..n].copy_from_slice(&self.source[self.sent..self.sent + n]);
        self.sent += n;
        Ok(n)
    }
}

fn fill(buf: &mut [u8], feed: &mut Feed) -> Result<(), (Error, usize)> {
    let mut transfer = ReceiveExact::new(buf.len());
    loop {
        match transfer.next_action() {
            ReceiveAction::Receive { offset, len } => {
                let outcome = feed.receive(&mut buf[offset..offset + len]);
                transfer.step(outcome);
            }
            ReceiveAction::Complete => return Ok(()),
            ReceiveAction::Failed { error, filled } => return Err((error, filled)),
        }
    }
}

/// A socket that accepts at most `piece` bytes per write and records every
/// write it was offered.
struct Sink {
    taken: Vec<u8>,
    offered: Vec<usize>,
    piece: usize,
    fail_on_call: Option<(usize, Error)>,
}

impl Sink {
    fn write(&mut self, buf: &[u8]) -> Result<usize, Error> {
        self.offered.push(buf.len());
        if let Some((call, error)) = self.fail_on_call {
            if self.offered.len() == call {
                return Err(error);
            }
        }
        let n = buf.len().min(self.piece);
        self.taken.extend_from_slice(&buf[..n]);
        Ok(n)
    }
}

fn send(buf: &[u8], sink: &mut Sink) -> Result<(), Error> {
    let mut transfer = WriteAll::new(buf.len());
    loop {
        match transfer.next_action() {
            WriteAction::Write { offset, len } => {
                let outcome = sink.write(&buf[offset..offset + len]);
                transfer.step(outcome);
            }
            WriteAction::Complete => return Ok(()),
            WriteAction::Failed { error } => return Err(error),
        }
    }
}

fn pattern(len: usize) -> Vec<u8> {
    (0..len).map(|i| (i * 7 + 3) as u8).collect()
}

#[test]
fn peer_verification_maps_to_option_values() {
    assert_eq!(PeerVerification::Enabled.as_integer(), 2);
    assert_eq!(PeerVerification::Optional.as_integer(), 1);
    assert_eq!(PeerVerification::Disabled.as_integer(), 0);
}

#[test]
fn chunk_len_is_capped_at_1024() {
    assert_eq!(MAX_CHUNK, 1024);
    assert_eq!(chunk_len(0), 0);
    assert_eq!(chunk_len(1), 1);
    assert_eq!(chunk_len(1023), 1023);
    assert_eq!(chunk_len(1024), 1024);
    assert_eq!(chunk_len(1025), 1024);
    assert_eq!(chunk_len(usize::MAX), 1024);
}

#[test]
fn receive_window_is_min_of_1024_and_buffer() {
    assert_eq!(receive_window(0), 0);
    assert_eq!(receive_window(10), 10);
    assert_eq!(receive_window(4096), 1024);
}

#[test]
fn receive_exact_fills_buffer_in_order() {
    let source = pattern(3000);
    let mut feed = Feed { source: source.clone(), sent: 0, piece: 700, fail_at: None, calls: 0 };
    let mut buf = vec![0u8; 3000];
    assert_eq!(fill(&mut buf, &mut feed), Ok(()));
    assert_eq!(buf, source);
    assert_eq!(feed.calls, 5);
}

#[test]
fn receive_exact_asks_for_at_most_1024_bytes() {
    let mut transfer = ReceiveExact::new(2500);
    assert_eq!(transfer.next_action(), ReceiveAction::Receive { offset: 0, len: 1024 });
    transfer.step(Ok(1024));
    assert_eq!(transfer.next_action(), ReceiveAction::Receive { offset: 1024, len: 1024 });
    transfer.step(Ok(100));
    assert_eq!(transfer.next_action(), ReceiveAction::Receive { offset: 1124, len: 1024 });
    transfer.step(Ok(1024));
    assert_eq!(transfer.next_action(), ReceiveAction::Receive { offset: 2148, len: 352 });
    transfer.step(Ok(352));
    assert_eq!(transfer.next_action(), ReceiveAction::Complete);
    assert_eq!(transfer.filled, 2500);
}

#[test]
fn receive_exact_of_empty_buffer_is_complete_at_once() {
    let transfer = ReceiveExact::new(0);
    assert_eq!(transfer.next_action(), ReceiveAction::Complete);
}

#[test]
fn receive_exact_waits_through_empty_receives() {
    let mut transfer = ReceiveExact::new(4);
    transfer.step(Ok(0));
    assert_eq!(transfer.next_action(), ReceiveAction::Receive { offset: 0, len: 4 });
    transfer.step(Ok(4));
    assert_eq!(transfer.next_action(), ReceiveAction::Complete);
}

#[test]
fn receive_exact_failure_reports_filled_prefix() {
    let source = pattern(2000);
    let error = Error::TransportFailure(-104);
    let mut feed = Feed {
        source: source.clone(),
        sent: 0,
        piece: 512,
        fail_at: Some((1300, error)),
        calls: 0,
    };
    let mut buf = vec![0u8; 2000];
    assert_eq!(fill(&mut buf, &mut feed), Err((error, 1300)));
    assert_eq!(&buf[..1300], &source[..1300]);
    assert_eq!(feed.calls, 4);
}

#[test]
fn receive_exact_cancelled_before_any_byte() {
    let mut feed = Feed {
        source: pattern(10),
        sent: 0,
        piece: 10,
        fail_at: Some((0, Error::Cancelled)),
        calls: 0,
    };
    let mut buf = vec![0u8; 10];
    assert_eq!(fill(&mut buf, &mut feed), Err((Error::Cancelled, 0)));
    assert_eq!(feed.calls, 1);
}

#[test]
fn receive_exact_ignores_outcomes_after_the_end() {
    let mut transfer = ReceiveExact::new(8);
    transfer.step(Err(Error::Cancelled));
    let ended = transfer;
    transfer.step(Ok(3));
    assert_eq!(transfer, ended);
    assert_eq!(
        transfer.next_action(),
        ReceiveAction::Failed { error: Error::Cancelled, filled: 0 }
    );
}

#[test]
fn write_splits_long_buffer_into_chunks() {
    let data = pattern(2500);
    let mut sink = Sink { taken: Vec::new(), offered: Vec::new(), piece: 4096, fail_on_call: None };
    assert_eq!(send(&data, &mut sink), Ok(()));
    assert_eq!(sink.offered, vec![1024, 1024, 452]);
    assert_eq!(sink.offered.iter().sum::<usize>(), 2500);
    assert_eq!(sink.taken, data);
}

#[test]
fn write_continues_after_short_writes() {
    let data = pattern(1500);
    let mut sink = Sink { taken: Vec::new(), offered: Vec::new(), piece: 600, fail_on_call: None };
    assert_eq!(send(&data, &mut sink), Ok(()));
    assert_eq!(sink.offered, vec![1024, 900, 300]);
    assert_eq!(sink.taken, data);
}

#[test]
fn write_of_exactly_1024_bytes_is_one_write() {
    let data = pattern(1024);
    let mut sink = Sink { taken: Vec::new(), offered: Vec::new(), piece: 4096, fail_on_call: None };
    assert_eq!(send(&data, &mut sink), Ok(()));
    assert_eq!(sink.offered, vec![1024]);
}

#[test]
fn write_of_empty_buffer_writes_nothing() {
    let mut sink = Sink { taken: Vec::new(), offered: Vec::new(), piece: 4096, fail_on_call: None };
    assert_eq!(send(&[], &mut sink), Ok(()));
    assert!(sink.offered.is_empty());
}

#[test]
fn write_failure_stops_without_a_count() {
    let data = pattern(3000);
    let error = Error::TransportFailure(-32);
    let mut sink = Sink {
        taken: Vec::new(),
        offered: Vec::new(),
        piece: 4096,
        fail_on_call: Some((2, error)),
    };
    assert_eq!(send(&data, &mut sink), Err(error));
    assert_eq!(sink.offered, vec![1024, 1024]);
}

#[test]
fn write_cancelled_before_any_byte() {
    let data = pattern(3000);
    let mut sink = Sink {
        taken: Vec::new(),
        offered: Vec::new(),
        piece: 4096,
        fail_on_call: Some((1, Error::Cancelled)),
    };
    assert_eq!(send(&data, &mut sink), Err(Error::Cancelled));
    assert_eq!(sink.offered.len(), 1);
}

#[test]
fn write_treats_an_overlong_count_as_the_whole_rest() {
    let mut transfer = WriteAll::new(100);
    transfer.step(Ok(usize::MAX));
    assert_eq!(transfer.written, 100);
    assert_eq!(transfer.next_action(), WriteAction::Complete);
}
