//! The interactive relay between the device and the controlling terminal.
//!
//! Two directions run side by side. Inbound, each read from the device is
//! turned into output, an idle turn, or the end of the session. Outbound,
//! each byte of the controlling input is sent to the device.

use vstd::prelude::*;
use crate::config::FAILURE_EXIT_CODE;

verus! {

/// The result of one read from the device into the read buffer.
#[derive(Debug)]
pub enum ReadOutcome {
    /// This many bytes were read into the front of the buffer.
    Data(usize),
    /// The read timed out with nothing to read.
    TimedOut,
    /// The read failed otherwise; the text describes the error.
    Failed(String),
}

/// What the session does after one read from the device.
#[derive(Debug)]
pub enum Relay {
    /// Write these bytes to the controlling output and read again.
    Emit(Vec<u8>),
    /// Read again.
    Idle,
    /// Report the diagnostic and exit with the code.
    Exit { code: i32, diagnostic: String },
}

/// The meaning of a [`Relay`].
pub enum RelayView {
    Emit(Seq<u8>),
    Idle,
    Exit { code: i32, diagnostic: Seq<char> },
}

impl View for Relay {
    type V = RelayView;

    open spec fn view(&self) -> RelayView {
        match self {
            Relay::Emit(bytes) => RelayView::Emit(bytes@),
            Relay::Idle => RelayView::Idle,
            Relay::Exit { code, diagnostic } => RelayView::Exit {
                code: *code,
                diagnostic: diagnostic@,
            },
        }
    }
}

/// Whether an outcome fits a buffer of `len` bytes.
pub open spec fn fits(len: nat, outcome: ReadOutcome) -> bool {
    match outcome {
        ReadOutcome::Data(n) => n <= len,
        _ => true,
    }
}

/// What a read into `buf` leads to: the bytes read are passed on verbatim,
/// none for an empty read; a timeout is the idle condition; any other error
/// ends the session with failure and the error's description.
pub open spec fn relay_of(buf: Seq<u8>, outcome: ReadOutcome) -> RelayView {
    match outcome {
        ReadOutcome::Data(n) => RelayView::Emit(buf.subrange(0, n as int)),
        ReadOutcome::TimedOut => RelayView::Idle,
        ReadOutcome::Failed(d) => RelayView::Exit { code: FAILURE_EXIT_CODE, diagnostic: d@ },
    }
}

/// Decides what follows a read from the device into `buf`.
pub fn inbound_step(buf: &[u8], outcome: ReadOutcome) -> (r: Relay)
    requires
        fits(buf@.len(), outcome),
    ensures
        r@ == relay_of(buf@, outcome),
{
    match outcome {
        ReadOutcome::Data(n) => {
            let mut out: Vec<u8> = Vec::new();
            let mut i: usize = 0;
            while i < n
                invariant
                    n <= buf@.len(),
                    i <= n,
                    out@ == buf@.subrange(0, i as int),
                decreases n - i,
            {
                out.push(buf[i]);
                i = i + 1;
                assert(out@ =~= buf@.subrange(0, i as int));
            }
            Relay::Emit(out)
        },
        ReadOutcome::TimedOut => Relay::Idle,
        ReadOutcome::Failed(d) => Relay::Exit { code: FAILURE_EXIT_CODE, diagnostic: d },
    }
}

/// The bytes that a read delivers: the filled front of the buffer, and none
/// when the read timed out or failed.
pub open spec fn delivered(buf: Seq<u8>, outcome: ReadOutcome) -> Seq<u8> {
    match outcome {
        ReadOutcome::Data(n) => buf.subrange(0, n as int),
        _ => Seq::empty(),
    }
}

/// The bytes that a session of reads delivers, in order.
pub open spec fn delivered_all(reads: Seq<(Seq<u8>, ReadOutcome)>) -> Seq<u8>
    decreases reads.len(),
{
    if reads.len() == 0 {
        Seq::empty()
    } else {
        delivered(reads[0].0, reads[0].1) + delivered_all(reads.drop_first())
    }
}

/// What the relay writes to the controlling output over a session of reads.
pub open spec fn output_all(reads: Seq<(Seq<u8>, ReadOutcome)>) -> Seq<u8>
    decreases reads.len(),
{
    if reads.len() == 0 {
        Seq::empty()
    } else {
        let head = match relay_of(reads[0].0, reads[0].1) {
            RelayView::Emit(bytes) => bytes,
            _ => Seq::empty(),
        };
        head + output_all(reads.drop_first())
    }
}

/// Over any session of reads that fit their buffers and none of which
/// failed, no read ends the session, and the controlling output receives
/// exactly the bytes read from the device, in order.
pub proof fn lemma_relay_is_verbatim(reads: Seq<(Seq<u8>, ReadOutcome)>)
    requires
        forall|i: int| 0 <= i < reads.len() ==> fits(reads[i].0.len(), reads[i].1),
        forall|i: int| 0 <= i < reads.len() ==> !(reads[i].1 is Failed),
    ensures
        forall|i: int|
            0 <= i < reads.len() ==> !(relay_of(reads[i].0, reads[i].1) is Exit),
        output_all(reads) == delivered_all(reads),
    decreases reads.len(),
{
    if reads.len() > 0 {
        let rest = reads.drop_first();
        assert forall|i: int| 0 <= i < rest.len() implies fits(rest[i].0.len(), rest[i].1)
            && !(rest[i].1 is Failed) by {
            assert(rest[i] == reads[i + 1]);
        }
        lemma_relay_is_verbatim(rest);
    }
}

/// A read that delivers nothing writes nothing and does not end the session;
/// a timeout is idle; any other error ends it with failure and a diagnostic.
pub proof fn lemma_read_conditions(buf: Seq<u8>, d: String)
    ensures
        relay_of(buf, ReadOutcome::Data(0)) == RelayView::Emit(Seq::empty()),
        relay_of(buf, ReadOutcome::TimedOut) == RelayView::Idle,
        relay_of(buf, ReadOutcome::Failed(d))
            == (RelayView::Exit { code: FAILURE_EXIT_CODE, diagnostic: d@ }),
{
    assert(buf.subrange(0, 0) =~= Seq::<u8>::empty());
}

/// What happened on the controlling input side.
#[derive(Debug)]
pub enum InputEvent {
    /// One byte was read from the controlling input.
    Byte(u8),
    /// The controlling input reached its end.
    Closed,
    /// Reading the controlling input failed; the text describes the error.
    ReadFailed(String),
    /// Writing the last byte to the device failed; the text describes the error.
    WriteFailed(String),
}

/// What the outbound direction does next.
#[derive(Debug)]
pub enum Outbound {
    /// Write this byte to the device at once.
    Send(u8),
    /// Nothing more is sent; the inbound direction goes on.
    Stop,
    /// Report the diagnostic and end the session with the code.
    Exit { code: i32, diagnostic: String },
}

/// Decides what follows an event on the controlling input side: each byte
/// is sent as it comes, the end of input stops sending, and a failure ends
/// the session.
pub fn outbound_step(event: InputEvent) -> (r: Outbound)
    ensures
        match event {
            InputEvent::Byte(b) => r == Outbound::Send(b),
            InputEvent::Closed => r is Stop,
            InputEvent::ReadFailed(d) => r matches Outbound::Exit { code, diagnostic }
                && code == FAILURE_EXIT_CODE && diagnostic@ == d@,
            InputEvent::WriteFailed(d) => r matches Outbound::Exit { code, diagnostic }
                && code == FAILURE_EXIT_CODE && diagnostic@ == d@,
        },
{
    match event {
        InputEvent::Byte(b) => Outbound::Send(b),
        InputEvent::Closed => Outbound::Stop,
        InputEvent::ReadFailed(d) => Outbound::Exit { code: FAILURE_EXIT_CODE, diagnostic: d },
        InputEvent::WriteFailed(d) => Outbound::Exit { code: FAILURE_EXIT_CODE, diagnostic: d },
    }
}

} // verus!
