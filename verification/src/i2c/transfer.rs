//! The transfer engine: executable state of a transfer and the step function
//! that carries it through the wire protocol.

use vstd::prelude::*;
use super::model::{data_byte, Direction, OperationView, Step, TransferView};
use super::protocol::{lemma_initial_inv, lemma_next_data_inv, lemma_next_inv};
use super::request::{Exchange, Register, Request, ACKEN, BUSYF, GENSTART, GENSTOP, TRMODE};
use super::status::{
    check_and_clear_error_flags, Error, StatusCheck, ADDR7F, RDBF, STARTF, TDBE, TDC,
};

verus! {

/// One step of a transaction: fill a buffer from the target, or send it bytes.
#[derive(Debug)]
pub enum Operation {
    /// Read as many bytes as the buffer holds.
    Read(Vec<u8>),
    /// Write the bytes.
    Write(Vec<u8>),
}

impl View for Operation {
    type V = OperationView;

    open spec fn view(&self) -> OperationView {
        match self {
            Operation::Read(b) => OperationView::Read(b@),
            Operation::Write(b) => OperationView::Write(b@),
        }
    }
}

impl Operation {
    pub fn direction(&self) -> (d: Direction)
        ensures
            d == self@.direction(),
    {
        match self {
            Operation::Read(_) => Direction::Read,
            Operation::Write(_) => Direction::Write,
        }
    }

    pub fn len(&self) -> (n: usize)
        ensures
            n == self@.len(),
    {
        match self {
            Operation::Read(b) => b.len(),
            Operation::Write(b) => b.len(),
        }
    }
}

/// The operations of a sequence, as values.
pub open spec fn view_all(ops: Seq<Operation>) -> Seq<OperationView> {
    Seq::new(ops.len(), |i: int| ops[i]@)
}

/// What a transfer needs next.
#[derive(Clone, Copy, Debug)]
pub enum Poll {
    /// This register access, the outcome of which goes to [`Transfer::advance`].
    Pending(Request),
    /// Nothing: the transfer is done, with this result.
    Ready(Result<(), Error>),
}

/// A transfer in progress.
pub struct Transfer {
    addr: u8,
    ops: Vec<Operation>,
    op: usize,
    pos: usize,
    step: Step,
    clearing: bool,
    snapshot: u32,
    log: Ghost<Seq<Exchange>>,
}

impl View for Transfer {
    type V = TransferView;

    closed spec fn view(&self) -> TransferView {
        TransferView {
            addr: self.addr,
            ops: view_all(self.ops@),
            op: self.op as int,
            pos: self.pos as int,
            step: self.step,
            clearing: self.clearing,
            snapshot: self.snapshot,
            log: self.log@,
        }
    }
}

impl Transfer {
    /// What holds of every transfer: its state is well-formed, the bus
    /// commands it has issued follow the script of its operations, and its
    /// read buffers hold the bytes that came in.
    pub open spec fn wf(&self) -> bool {
        self@.inv() && self@.data_inv()
    }

    /// Sets up the transfer of `ops`, in order, with the target at `addr`.
    /// Nothing has happened on the bus yet. Without operations the transfer is
    /// done at once, successfully.
    pub fn new(addr: u8, ops: Vec<Operation>) -> (t: Transfer)
        ensures
            t.wf(),
            t@ == TransferView::initial(addr, view_all(ops@)),
    {
        let step = if ops.len() == 0 {
            Step::Finished
        } else {
            Step::StopWait
        };
        proof {
            lemma_initial_inv(addr, view_all(ops@));
            let start = TransferView::initial(addr, view_all(ops@));
            assert(start.filled() =~= Seq::<u8>::empty()) by {
                assert(start.current().bytes().take(0) =~= Seq::<u8>::empty());
            }
        }
        Transfer {
            addr,
            ops,
            op: 0,
            pos: 0,
            step,
            clearing: false,
            snapshot: 0,
            log: Ghost(Seq::empty()),
        }
    }

    /// True once the transfer is done.
    pub fn is_ready(&self) -> (done: bool)
        ensures
            done == self@.step.is_terminal(),
    {
        match self.step {
            Step::Finished => true,
            Step::Failed(_) => true,
            _ => false,
        }
    }

    /// The register access to perform next, or the result.
    pub fn poll(&self) -> (p: Poll)
        requires
            self.wf(),
        ensures
            match p {
                Poll::Pending(r) => self@.request() == Some(r),
                Poll::Ready(r) => self@.request() is None && self@.result() == Some(r),
            },
    {
        match self.step {
            Step::Finished => Poll::Ready(Ok(())),
            Step::Failed(e) => Poll::Ready(Err(e)),
            Step::StopWait => Poll::Pending(Request::Read(Register::Ctrl1)),
            Step::Start => match self.ops[self.op].direction() {
                Direction::Write => Poll::Pending(Request::Modify(Register::Ctrl1, 0, GENSTART)),
                Direction::Read => Poll::Pending(
                    Request::Modify(Register::Ctrl1, 0, GENSTART | ACKEN),
                ),
            },
            Step::MasterWait => Poll::Pending(Request::Read(Register::Sts2)),
            Step::AddressClear => Poll::Pending(Request::Read(Register::Sts2)),
            Step::Address => {
                let shifted: u32 = 2 * (self.addr as u32);
                match self.ops[self.op].direction() {
                    Direction::Write => Poll::Pending(Request::Write(Register::Dt, shifted)),
                    Direction::Read => Poll::Pending(Request::Write(Register::Dt, shifted + 1)),
                }
            },
            Step::TxWrite => match &self.ops[self.op] {
                Operation::Write(bytes) => Poll::Pending(
                    Request::Write(Register::Dt, bytes[self.pos] as u32),
                ),
                Operation::Read(bytes) => Poll::Pending(
                    Request::Write(Register::Dt, bytes[self.pos] as u32),
                ),
            },
            Step::NackStop => Poll::Pending(Request::Modify(Register::Ctrl1, ACKEN, GENSTOP)),
            Step::RxRead => Poll::Pending(Request::Read(Register::Dt)),
            Step::Stop => Poll::Pending(Request::Modify(Register::Ctrl1, 0, GENSTOP)),
            _ => if self.clearing {
                let check: StatusCheck = check_and_clear_error_flags(self.snapshot);
                Poll::Pending(Request::Modify(Register::Sts1, check.clear, 0))
            } else {
                Poll::Pending(Request::Read(Register::Sts1))
            },
        }
    }

    /// Hands the outcome of the pending access to the transfer: the word read,
    /// or anything after a write or a modify. A transfer that is done ignores
    /// it.
    pub fn advance(&mut self, reply: u32)
        requires
            old(self).wf(),
        ensures
            final(self).wf(),
            final(self)@ == old(self)@.next(reply),
    {
        match self.poll() {
            Poll::Ready(_) => {},
            Poll::Pending(request) => {
                self.log = Ghost(self.log@.push(Exchange { request, reply }));
                match self.step {
                    Step::StopWait | Step::Start | Step::StartWait | Step::MasterCheck
                    | Step::MasterWait | Step::Address | Step::AddressWait
                    | Step::AddressClear => self.prepare(reply),
                    Step::TxEmptyWait | Step::TxWrite | Step::TxCompleteWait => self.send_byte(
                        reply,
                    ),
                    Step::NackStop => {
                        self.step = Step::RxWait;
                    },
                    Step::RxWait | Step::RxRead => self.recv_byte(reply),
                    _ => {
                        self.step = Step::Finished;
                    },
                }
            },
        }
        proof {
            lemma_next_inv(old(self)@, reply);
            lemma_next_data_inv(old(self)@, reply);
        }
    }

    /// One step of the address phase: wait for an earlier STOP to go out,
    /// request START, wait for it and for the master role, send the address,
    /// wait for its acknowledge, clear the address flag. A fault seen while
    /// the acknowledge is waited for is attributed to the address.
    fn prepare(&mut self, reply: u32)
        requires
            old(self)@.wf(),
            old(self).step.in_address_phase(),
        ensures
            final(self)@.wf(),
            final(self)@ == old(self)@.react(reply),
    {
        match self.step {
            Step::StopWait => {
                if reply & GENSTOP == 0 {
                    self.step = Step::Start;
                }
            },
            Step::Start => {
                self.step = Step::StartWait;
            },
            Step::MasterWait => {
                if reply & TRMODE != 0 && reply & BUSYF == 0 {
                    self.step = Step::Address;
                } else {
                    self.step = Step::MasterCheck;
                }
            },
            Step::Address => {
                self.step = Step::AddressWait;
            },
            Step::AddressClear => {
                self.settle();
            },
            _ => {
                self.watch(reply);
            },
        }
    }

    /// One step of sending a byte: wait until the transmit register is
    /// empty, write the byte, wait until it has gone out. A fault seen before
    /// the byte is written is attributed to the address, one seen after it to
    /// the data.
    fn send_byte(&mut self, reply: u32)
        requires
            old(self)@.wf(),
            old(self).step is TxEmptyWait || old(self).step is TxWrite || old(self).step
                is TxCompleteWait,
        ensures
            final(self)@.wf(),
            final(self)@ == old(self)@.react(reply),
    {
        match self.step {
            Step::TxWrite => {
                self.step = Step::TxCompleteWait;
            },
            _ => {
                self.watch(reply);
            },
        }
    }

    /// One step of receiving a byte: wait until one has come in, with faults
    /// attributed to the data, then read it from the data register into the
    /// buffer.
    fn recv_byte(&mut self, reply: u32)
        requires
            old(self)@.wf(),
            old(self).step is RxWait || old(self).step is RxRead,
        ensures
            final(self)@.wf(),
            final(self)@ == old(self)@.react(reply),
    {
        match self.step {
            Step::RxRead => {
                self.store(reply);
            },
            _ => {
                self.watch(reply);
            },
        }
    }

    /// Stores the byte that was read from the data register and moves on.
    fn store(&mut self, reply: u32)
        requires
            old(self)@.wf(),
            old(self).step is RxRead,
        ensures
            final(self)@.wf(),
            final(self)@ == old(self)@.react(reply),
    {
        let low: u32 = reply & 0xFF;
        assert(low <= 0xFF) by (bit_vector)
            requires
                low == reply & 0xFF,
        ;
        let byte: u8 = low as u8;
        let i: usize = self.op;
        let j: usize = self.pos;
        let len: usize = self.ops[i].len();
        assert(j < len);
        match &mut self.ops[i] {
            Operation::Read(buf) => {
                buf[j] = byte;
            },
            Operation::Write(_) => {},
        }
        self.pos = j + 1;
        proof {
            let before = old(self)@;
            assert(view_all(self.ops@) =~= before.ops.update(
                before.op,
                OperationView::Read(before.current().bytes().update(before.pos, data_byte(reply))),
            ));
        }
        self.settle();
    }

    /// One look at STS1 in a step that waits for a status flag. A word with a
    /// raised fault or bus-error flag is kept while that flag is cleared, and
    /// judged afterwards; any other word is judged at once.
    fn watch(&mut self, reply: u32)
        requires
            old(self)@.wf(),
            old(self).step.watches_status(),
        ensures
            final(self)@.wf(),
            final(self)@ == old(self)@.react(reply),
    {
        if self.clearing {
            self.clearing = false;
            let sts1: u32 = self.snapshot;
            self.judge(sts1);
        } else {
            let check: StatusCheck = check_and_clear_error_flags(reply);
            if check.clear != 0 {
                self.clearing = true;
                self.snapshot = reply;
            } else {
                self.judge(reply);
            }
        }
    }

    /// Acts on a status word: a fault ends the transfer, tagged by the phase
    /// it was seen in; otherwise the step is left once the flag it waits for is
    /// up.
    fn judge(&mut self, sts1: u32)
        requires
            old(self)@.wf(),
            old(self).step.watches_status(),
            !old(self).clearing,
        ensures
            final(self)@.wf(),
            final(self)@ == old(self)@.judge(sts1),
    {
        let check: StatusCheck = check_and_clear_error_flags(sts1);
        match check.result {
            Err(e) => {
                let tagged: Error = match self.step {
                    Step::AddressWait | Step::TxEmptyWait => e.nack_addr(),
                    Step::TxCompleteWait | Step::RxWait => e.nack_data(),
                    _ => e,
                };
                self.step = Step::Failed(tagged);
            },
            Ok(word) => {
                match self.step {
                    Step::StartWait => {
                        if word & STARTF != 0 {
                            self.step = Step::MasterCheck;
                        }
                    },
                    Step::MasterCheck => {
                        self.step = Step::MasterWait;
                    },
                    Step::AddressWait => {
                        if word & ADDR7F != 0 {
                            self.step = Step::AddressClear;
                        }
                    },
                    Step::TxEmptyWait => {
                        if word & TDBE != 0 {
                            self.step = Step::TxWrite;
                        }
                    },
                    Step::TxCompleteWait => {
                        if word & TDC != 0 {
                            let len: usize = self.ops[self.op].len();
                            assert(self.pos < len);
                            self.pos = self.pos + 1;
                            self.settle();
                        }
                    },
                    _ => {
                        if word & RDBF != 0 {
                            self.step = Step::RxRead;
                        }
                    },
                }
            },
        }
    }

    /// Chooses the step that carries on the data phase from the current
    /// position, passing over operations that are complete.
    fn settle(&mut self)
        requires
            old(self)@.op < old(self).ops@.len(),
            old(self)@.pos <= old(self)@.current().len(),
            !old(self).clearing,
        ensures
            final(self)@.wf(),
            final(self)@ == old(self)@.settle(),
    {
        let ghost start = self@;
        loop
            invariant_except_break
                self@.settle() == start.settle(),
                self@.op < self.ops@.len(),
                self@.pos <= self@.current().len(),
                !self.clearing,
            ensures
                self@.wf(),
                self@ == start.settle(),
            decreases self.ops@.len() - self.op,
        {
            let last: bool = self.op == self.ops.len() - 1;
            let len: usize = self.ops[self.op].len();
            let direction: Direction = self.ops[self.op].direction();
            if self.pos < len {
                match direction {
                    Direction::Write => {
                        self.step = Step::TxEmptyWait;
                    },
                    Direction::Read => {
                        if last && self.pos == len - 1 {
                            self.step = Step::NackStop;
                        } else {
                            self.step = Step::RxWait;
                        }
                    },
                }
                break ;
            } else if last {
                match direction {
                    Direction::Write => {
                        self.step = Step::Stop;
                    },
                    Direction::Read => {
                        if len == 0 {
                            self.step = Step::Failed(Error::Overrun);
                        } else {
                            self.step = Step::Finished;
                        }
                    },
                }
                break ;
            } else {
                let turning: bool = self.ops[self.op + 1].direction() != direction;
                self.op = self.op + 1;
                self.pos = 0;
                if turning {
                    self.step = Step::StopWait;
                    break ;
                }
            }
        }
    }

    /// Ends the transfer and hands the operations back, the read buffers
    /// holding what was received so far.
    pub fn into_operations(self) -> (ops: Vec<Operation>)
        ensures
            view_all(ops@) == self@.ops,
    {
        self.ops
    }
}

} // verus!
