//! Carrying out a list of bus operations: in order, without retries, stopping
//! at the first failed write.

use vstd::prelude::*;
use crate::bus::{BusOp, Signal};

verus! {

/// A transfer as a mathematical value.
pub struct TransferState {
    /// The operations of the transfer.
    pub ops: Seq<Signal>,
    /// How many of them have been performed.
    pub position: nat,
    /// Whether the last operation performed was a write that failed.
    pub failed: bool,
    /// The byte count reported by the last successful write, 0 before any.
    pub written: usize,
}

impl TransferState {
    /// Whether an operation is left to perform.
    pub open spec fn active(self) -> bool {
        !self.failed && self.position < self.ops.len()
    }

    /// The state after the pending operation came back with `outcome`.
    pub open spec fn after(self, outcome: Result<usize, ()>) -> TransferState
        recommends
            self.active(),
    {
        match outcome {
            Err(_) => TransferState { position: self.position + 1, failed: true, ..self },
            Ok(count) => TransferState {
                position: self.position + 1,
                written: if self.ops[self.position as int] is Write {
                    count
                } else {
                    self.written
                },
                ..self
            },
        }
    }
}

/// The progress of one list of bus operations.
#[derive(Debug)]
pub struct Transfer {
    ops: Vec<BusOp>,
    position: usize,
    failed: bool,
    written: usize,
}

impl View for Transfer {
    type V = TransferState;

    closed spec fn view(&self) -> TransferState {
        TransferState {
            ops: self.ops.deep_view(),
            position: self.position as nat,
            failed: self.failed,
            written: self.written,
        }
    }
}

impl Transfer {
    /// The invariant of a transfer: it is not past its last operation.
    pub closed spec fn wf(&self) -> bool {
        self.position <= self.ops.len()
    }

    /// Starts a transfer of `ops`.
    pub fn new(ops: Vec<BusOp>) -> (transfer: Self)
        ensures
            transfer.wf(),
            transfer@ == (TransferState {
                ops: ops.deep_view(),
                position: 0,
                failed: false,
                written: 0,
            }),
    {
        Transfer { ops, position: 0, failed: false, written: 0 }
    }

    /// The operation to perform next: none once every operation has been
    /// performed or a write has failed.
    pub fn pending(&self) -> (op: Option<&BusOp>)
        requires
            self.wf(),
        ensures
            self@.active() ==> op.is_some() && op.unwrap().deep_view() == self@.ops[self@.position as int],
            !self@.active() ==> op.is_none(),
    {
        if self.failed || self.position >= self.ops.len() {
            None
        } else {
            Some(&self.ops[self.position])
        }
    }

    /// Records what came of the pending operation: the byte count of a
    /// write, or its failure. For an operation that is no write the count is
    /// ignored.
    pub fn record(&mut self, outcome: Result<usize, ()>)
        requires
            old(self).wf(),
            old(self)@.active(),
        ensures
            final(self).wf(),
            final(self)@ == old(self)@.after(outcome),
            outcome.is_err() ==> !final(self)@.active(),
    {
        match outcome {
            Err(_) => {
                self.failed = true;
            },
            Ok(count) => {
                match &self.ops[self.position] {
                    BusOp::Write(_) => {
                        self.written = count;
                    },
                    _ => {},
                }
            },
        }
        self.position = self.position + 1;
    }

    /// The result of the transfer so far: the failure, or the byte count of
    /// the last write.
    pub fn result(&self) -> (result: Result<usize, ()>)
        ensures
            self@.failed ==> result == Err::<usize, ()>(()),
            !self@.failed ==> result == Ok::<usize, ()>(self@.written),
    {
        if self.failed {
            Err(())
        } else {
            Ok(self.written)
        }
    }
}

} // verus!
