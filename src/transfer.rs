//! Sending a file's contents to the device, whole and in order.
//!
//! The transfer keeps the bytes to send and how many of them the device has
//! taken. The program writes what remains, reports how much the device took,
//! and goes on until everything is sent or a write fails.

use vstd::prelude::*;
use crate::config::{FAILURE_EXIT_CODE, SETTLE_MILLISECONDS, SUCCESS_EXIT_CODE};

verus! {

/// The result of one write of the remaining bytes to the device.
#[derive(Debug)]
pub enum WriteOutcome {
    /// The device took this many bytes from the front of what was written.
    Wrote(usize),
    /// The write was interrupted before anything was taken.
    Interrupted,
    /// The write failed; the text describes the error.
    Failed(String),
}

/// What the transfer asks for next.
#[derive(Debug)]
pub enum TransferStep {
    /// Write the remaining bytes.
    WriteMore,
    /// Everything was sent: pause this long so the device can take it in,
    /// then exit with the code.
    Done { settle_millis: u64, code: i32 },
    /// Report the diagnostic and exit with the code.
    Exit { code: i32, diagnostic: String },
}

/// Text of the error when the device takes no byte of a non-empty write.
pub open spec fn write_zero_text() -> Seq<char> {
    "failed to write whole buffer"@
}

/// The meaning of a transfer: the bytes to send and how many were sent.
pub struct TransferView {
    pub data: Seq<u8>,
    pub sent: nat,
}

/// A file's contents on their way to the device.
pub struct FileTransfer {
    data: Vec<u8>,
    sent: usize,
}

impl View for FileTransfer {
    type V = TransferView;

    closed spec fn view(&self) -> TransferView {
        TransferView { data: self.data@, sent: self.sent as nat }
    }
}

/// The bytes that are still to be sent.
pub open spec fn remaining_of(v: TransferView) -> Seq<u8> {
    v.data.subrange(v.sent as int, v.data.len() as int)
}

/// Whether every byte was sent.
pub open spec fn finished(v: TransferView) -> bool {
    v.sent == v.data.len()
}

/// The step that a transfer in state `v` asks for while nothing failed.
pub open spec fn pending_step_is(v: TransferView, step: TransferStep) -> bool {
    if finished(v) {
        step == (TransferStep::Done { settle_millis: SETTLE_MILLISECONDS, code: SUCCESS_EXIT_CODE })
    } else {
        step is WriteMore
    }
}

impl FileTransfer {
    #[verifier::type_invariant]
    spec fn inv(&self) -> bool {
        self.sent <= self.data.len()
    }

    /// A transfer of `data` with nothing sent yet.
    pub fn new(data: Vec<u8>) -> (r: FileTransfer)
        ensures
            r@.data == data@,
            r@.sent == 0,
    {
        FileTransfer { data, sent: 0 }
    }

    /// How many bytes were sent.
    pub fn sent(&self) -> (r: usize)
        ensures
            r == self@.sent,
    {
        self.sent
    }

    /// How many bytes there are to send in all.
    pub fn len(&self) -> (r: usize)
        ensures
            r == self@.data.len(),
    {
        self.data.len()
    }

    /// What the transfer asks for while nothing has failed.
    pub fn step(&self) -> (r: TransferStep)
        ensures
            self@.sent <= self@.data.len(),
            pending_step_is(self@, r),
    {
        proof {
            use_type_invariant(self);
        }
        if self.sent == self.data.len() {
            TransferStep::Done { settle_millis: SETTLE_MILLISECONDS, code: SUCCESS_EXIT_CODE }
        } else {
            TransferStep::WriteMore
        }
    }

    /// The bytes still to be sent, in order.
    pub fn remaining(&self) -> (r: Vec<u8>)
        ensures
            r@ == remaining_of(self@),
    {
        proof {
            use_type_invariant(self);
        }
        let mut out: Vec<u8> = Vec::new();
        let mut i: usize = self.sent;
        while i < self.data.len()
            invariant
                self.sent <= i <= self.data.len(),
                out@ == self.data@.subrange(self.sent as int, i as int),
            decreases self.data.len() - i,
        {
            out.push(self.data[i]);
            i = i + 1;
            assert(out@ =~= self.data@.subrange(self.sent as int, i as int));
        }
        out
    }

    /// Takes in the result of writing the remaining bytes. Bytes that the
    /// device took count as sent; an interrupted write changes nothing; a
    /// write that took nothing of a non-empty rest, or that failed, ends the
    /// transfer with failure.
    pub fn on_write(&mut self, outcome: WriteOutcome) -> (r: TransferStep)
        requires
            outcome matches WriteOutcome::Wrote(n) ==> n <= old(self)@.data.len() - old(self)@.sent,
        ensures
            final(self)@.data == old(self)@.data,
            match outcome {
                WriteOutcome::Wrote(n) => {
                    if n == 0 && !finished(old(self)@) {
                        final(self)@ == old(self)@ && (r matches TransferStep::Exit { code, diagnostic }
                            && code == FAILURE_EXIT_CODE && diagnostic@ == write_zero_text())
                    } else {
                        final(self)@.sent == old(self)@.sent + n
                            && pending_step_is(final(self)@, r)
                    }
                },
                WriteOutcome::Interrupted => final(self)@ == old(self)@
                    && pending_step_is(final(self)@, r),
                WriteOutcome::Failed(d) => final(self)@ == old(self)@ && (r matches TransferStep::Exit {
                    code,
                    diagnostic,
                } && code == FAILURE_EXIT_CODE && diagnostic@ == d@),
            },
    {
        proof {
            use_type_invariant(&*self);
        }
        match outcome {
            WriteOutcome::Wrote(n) => {
                if n == 0 && self.sent < self.data.len() {
                    TransferStep::Exit {
                        code: FAILURE_EXIT_CODE,
                        diagnostic: String::from_str("failed to write whole buffer"),
                    }
                } else {
                    self.sent = self.sent + n;
                    self.step()
                }
            },
            WriteOutcome::Interrupted => self.step(),
            WriteOutcome::Failed(d) => TransferStep::Exit { code: FAILURE_EXIT_CODE, diagnostic: d },
        }
    }
}

/// The sum of the byte counts that the device took.
pub open spec fn total(writes: Seq<nat>) -> nat
    decreases writes.len(),
{
    if writes.len() == 0 {
        0
    } else {
        writes[0] + total(writes.drop_first())
    }
}

/// What reaches the device when, from `from` on, it takes the byte counts
/// of `writes` one after another from the front of the remaining bytes.
pub open spec fn transmitted(data: Seq<u8>, from: nat, writes: Seq<nat>) -> Seq<u8>
    decreases writes.len(),
{
    if writes.len() == 0 {
        Seq::empty()
    } else {
        data.subrange(from as int, (from + writes[0]) as int) + transmitted(
            data,
            from + writes[0],
            writes.drop_first(),
        )
    }
}

proof fn lemma_transmitted_is_slice(data: Seq<u8>, from: nat, writes: Seq<nat>)
    requires
        from + total(writes) <= data.len(),
    ensures
        transmitted(data, from, writes) == data.subrange(from as int, (from + total(writes)) as int),
    decreases writes.len(),
{
    if writes.len() == 0 {
        assert(data.subrange(from as int, from as int) =~= Seq::<u8>::empty());
    } else {
        let next = from + writes[0];
        lemma_transmitted_is_slice(data, next, writes.drop_first());
        assert(data.subrange(from as int, next as int) + data.subrange(
            next as int,
            (next + total(writes.drop_first())) as int,
        ) =~= data.subrange(from as int, (from + total(writes)) as int));
    }
}

/// Sending a file of `N` bytes puts exactly those `N` bytes on the device,
/// verbatim and in order, whatever the sizes of the writes that took them,
/// and a transfer that has sent them all ends with success.
pub proof fn lemma_file_send_is_verbatim(data: Seq<u8>, writes: Seq<nat>, t: TransferView)
    requires
        total(writes) == data.len(),
        t.data == data,
        t.sent == total(writes),
    ensures
        transmitted(data, 0, writes) == data,
        finished(t),
        pending_step_is(t, TransferStep::Done { settle_millis: SETTLE_MILLISECONDS, code: SUCCESS_EXIT_CODE }),
{
    lemma_transmitted_is_slice(data, 0, writes);
    assert(data.subrange(0, data.len() as int) =~= data);
}

} // verus!
