//! Mathematical model of a transfer: its state, the register access it waits
//! for, and the state it moves to when handed the outcome.

use vstd::prelude::*;
use super::request::{Exchange, Register, Request, ACKEN, BUSYF, GENSTART, GENSTOP, TRMODE};
use super::status::{fault, flag, flag_to_clear, Error, ADDR7F, RDBF, STARTF, TDBE, TDC};

verus! {

/// Direction of an operation, as seen from the master.
#[derive(Clone, Copy, Debug, PartialEq, Eq, Structural)]
pub enum Direction {
    Write,
    Read,
}

/// An operation as a value: a read with the buffer it fills, or a write with
/// the bytes it sends.
pub enum OperationView {
    Read(Seq<u8>),
    Write(Seq<u8>),
}

impl OperationView {
    pub open spec fn direction(self) -> Direction {
        match self {
            OperationView::Read(_) => Direction::Read,
            OperationView::Write(_) => Direction::Write,
        }
    }

    pub open spec fn bytes(self) -> Seq<u8> {
        match self {
            OperationView::Read(b) => b,
            OperationView::Write(b) => b,
        }
    }

    pub open spec fn len(self) -> int {
        self.bytes().len() as int
    }
}

/// Where a transfer stands in the wire protocol. Each step but the two
/// terminal ones waits for one register access.
#[derive(Clone, Copy, Debug, PartialEq, Eq, Structural)]
pub enum Step {
    /// Reading CTRL1 until an earlier STOP has gone out.
    StopWait,
    /// Requesting a START condition.
    Start,
    /// Watching STS1 until the START was generated.
    StartWait,
    /// Watching STS1 for faults before the bus state is looked at.
    MasterCheck,
    /// Reading STS2 until the controller is master and the bus is no longer
    /// busy.
    MasterWait,
    /// Writing the address byte.
    Address,
    /// Watching STS1 until the address was acknowledged.
    AddressWait,
    /// Reading STS2, which clears the address flag.
    AddressClear,
    /// Watching STS1 until the transmit register is empty.
    TxEmptyWait,
    /// Writing a data byte.
    TxWrite,
    /// Watching STS1 until the byte has gone out.
    TxCompleteWait,
    /// Switching acknowledge off and arming STOP ahead of the last byte.
    NackStop,
    /// Watching STS1 until a byte has come in.
    RxWait,
    /// Reading the byte that came in.
    RxRead,
    /// Requesting STOP after the last byte went out.
    Stop,
    /// Done, successfully.
    Finished,
    /// Done, with a fault.
    Failed(Error),
}

impl Step {
    /// Steps that watch STS1 and run the error monitor on every word.
    pub open spec fn watches_status(self) -> bool {
        self is StartWait || self is MasterCheck || self is AddressWait || self is TxEmptyWait
            || self is TxCompleteWait || self is RxWait
    }

    /// Steps of the address phase.
    pub open spec fn in_address_phase(self) -> bool {
        self is StopWait || self is Start || self is StartWait || self is MasterCheck
            || self is MasterWait || self is Address || self is AddressWait
            || self is AddressClear
    }

    pub open spec fn is_terminal(self) -> bool {
        self is Finished || self is Failed
    }

    /// How a fault seen in this step is reported: an acknowledge failure is
    /// attributed to the address while the address or the transmit register is
    /// waited for, and to the data while a byte is on the wire.
    pub open spec fn tagged(self, e: Error) -> Error {
        match self {
            Step::AddressWait | Step::TxEmptyWait => e.spec_nack_addr(),
            Step::TxCompleteWait | Step::RxWait => e.spec_nack_data(),
            _ => e,
        }
    }
}

/// The request that asks for a START. A read also switches acknowledge on, so
/// that incoming bytes are acknowledged until told otherwise.
pub open spec fn start_request(direction: Direction) -> Request {
    match direction {
        Direction::Write => Request::Modify(Register::Ctrl1, 0, GENSTART),
        Direction::Read => Request::Modify(Register::Ctrl1, 0, GENSTART | ACKEN),
    }
}

/// The address byte on the wire: the address shifted left by one bit, with the
/// lowest bit 0 for a write and 1 for a read.
pub open spec fn address_word(addr: u8, direction: Direction) -> u32 {
    match direction {
        Direction::Write => (2 * addr) as u32,
        Direction::Read => (2 * addr + 1) as u32,
    }
}

pub open spec fn address_request(addr: u8, direction: Direction) -> Request {
    Request::Write(Register::Dt, address_word(addr, direction))
}

pub open spec fn data_request(byte: u8) -> Request {
    Request::Write(Register::Dt, byte as u32)
}

pub open spec fn clock_in_request() -> Request {
    Request::Read(Register::Dt)
}

pub open spec fn nack_stop_request() -> Request {
    Request::Modify(Register::Ctrl1, ACKEN, GENSTOP)
}

pub open spec fn stop_request() -> Request {
    Request::Modify(Register::Ctrl1, 0, GENSTOP)
}

/// The byte that a word read from the data register carries.
pub open spec fn data_byte(word: u32) -> u8 {
    (word & 0xFF) as u8
}

/// State of a transfer.
pub struct TransferView {
    /// Target address.
    pub addr: u8,
    /// The operations, in order.
    pub ops: Seq<OperationView>,
    /// Index of the operation in progress.
    pub op: int,
    /// Number of bytes of that operation that are done.
    pub pos: int,
    pub step: Step,
    /// A status word with a raised flag was seen, and the flag is being cleared.
    pub clearing: bool,
    /// That status word.
    pub snapshot: u32,
    /// Every register access performed so far, with its outcome.
    pub log: Seq<Exchange>,
}

impl TransferView {
    pub open spec fn current(self) -> OperationView {
        self.ops[self.op]
    }

    pub open spec fn is_last(self) -> bool {
        self.op == self.ops.len() - 1
    }

    /// The state a fresh transfer of `ops` to `addr` starts in. Without
    /// operations it is finished at once.
    pub open spec fn initial(addr: u8, ops: Seq<OperationView>) -> TransferView {
        TransferView {
            addr,
            ops,
            op: 0,
            pos: 0,
            step: if ops.len() == 0 {
                Step::Finished
            } else {
                Step::StopWait
            },
            clearing: false,
            snapshot: 0,
            log: Seq::empty(),
        }
    }

    /// The register access the transfer waits for, if it is not done.
    pub open spec fn request(self) -> Option<Request> {
        match self.step {
            Step::Finished | Step::Failed(_) => None,
            Step::StopWait => Some(Request::Read(Register::Ctrl1)),
            Step::Start => Some(start_request(self.current().direction())),
            Step::MasterWait | Step::AddressClear => Some(Request::Read(Register::Sts2)),
            Step::Address => Some(address_request(self.addr, self.current().direction())),
            Step::TxWrite => Some(data_request(self.current().bytes()[self.pos])),
            Step::NackStop => Some(nack_stop_request()),
            Step::RxRead => Some(clock_in_request()),
            Step::Stop => Some(stop_request()),
            _ => if self.clearing {
                Some(Request::Modify(Register::Sts1, flag_to_clear(self.snapshot), 0))
            } else {
                Some(Request::Read(Register::Sts1))
            },
        }
    }

    /// Picks the step that carries on the data phase from `(op, pos)`:
    /// operations that are complete, or empty, are passed over; a change of
    /// direction calls for a new address phase; the last operation ends with
    /// STOP, which a read arms before its last byte. An empty read in last
    /// place is an overrun.
    pub open spec fn settle(self) -> TransferView
        decreases self.ops.len() - self.op,
    {
        if !(0 <= self.op < self.ops.len()) {
            self
        } else if self.pos < self.current().len() {
            match self.current() {
                OperationView::Write(_) => TransferView { step: Step::TxEmptyWait, ..self },
                OperationView::Read(_) => if self.is_last() && self.pos == self.current().len()
                    - 1 {
                    TransferView { step: Step::NackStop, ..self }
                } else {
                    TransferView { step: Step::RxWait, ..self }
                },
            }
        } else if self.is_last() {
            match self.current() {
                OperationView::Write(_) => TransferView { step: Step::Stop, ..self },
                OperationView::Read(_) => if self.current().len() == 0 {
                    TransferView { step: Step::Failed(Error::Overrun), ..self }
                } else {
                    TransferView { step: Step::Finished, ..self }
                },
            }
        } else {
            let turned = TransferView { op: self.op + 1, pos: 0, ..self };
            if self.ops[self.op + 1].direction() != self.current().direction() {
                TransferView { step: Step::StopWait, ..turned }
            } else {
                turned.settle()
            }
        }
    }

    /// What a status-watching step does with a status word whose flag, if it
    /// had one raised, has been cleared: a fault ends the transfer, otherwise
    /// the step goes on once its own flag is up.
    pub open spec fn judge(self, sts1: u32) -> TransferView {
        match fault(sts1) {
            Some(e) => TransferView { step: Step::Failed(self.step.tagged(e)), ..self },
            None => match self.step {
                Step::StartWait => if flag(sts1, STARTF) {
                    TransferView { step: Step::MasterCheck, ..self }
                } else {
                    self
                },
                Step::MasterCheck => TransferView { step: Step::MasterWait, ..self },
                Step::AddressWait => if flag(sts1, ADDR7F) {
                    TransferView { step: Step::AddressClear, ..self }
                } else {
                    self
                },
                Step::TxEmptyWait => if flag(sts1, TDBE) {
                    TransferView { step: Step::TxWrite, ..self }
                } else {
                    self
                },
                Step::TxCompleteWait => if flag(sts1, TDC) {
                    (TransferView { pos: self.pos + 1, ..self }).settle()
                } else {
                    self
                },
                Step::RxWait => if flag(sts1, RDBF) {
                    TransferView { step: Step::RxRead, ..self }
                } else {
                    self
                },
                _ => self,
            },
        }
    }

    /// The state after the awaited access came back with `reply`, the log left
    /// aside.
    pub open spec fn react(self, reply: u32) -> TransferView {
        match self.step {
            Step::Finished | Step::Failed(_) => self,
            Step::StopWait => if flag(reply, GENSTOP) {
                self
            } else {
                TransferView { step: Step::Start, ..self }
            },
            Step::Start => TransferView { step: Step::StartWait, ..self },
            Step::MasterWait => if flag(reply, TRMODE) && !flag(reply, BUSYF) {
                TransferView { step: Step::Address, ..self }
            } else {
                TransferView { step: Step::MasterCheck, ..self }
            },
            Step::Address => TransferView { step: Step::AddressWait, ..self },
            Step::AddressClear => self.settle(),
            Step::TxWrite => TransferView { step: Step::TxCompleteWait, ..self },
            Step::NackStop => TransferView { step: Step::RxWait, ..self },
            Step::RxRead => (TransferView {
                ops: self.ops.update(
                    self.op,
                    OperationView::Read(
                        self.current().bytes().update(self.pos, data_byte(reply)),
                    ),
                ),
                pos: self.pos + 1,
                ..self
            }).settle(),
            Step::Stop => TransferView { step: Step::Finished, ..self },
            _ => if self.clearing {
                (TransferView { clearing: false, ..self }).judge(self.snapshot)
            } else if flag_to_clear(reply) != 0 {
                TransferView { clearing: true, snapshot: reply, ..self }
            } else {
                self.judge(reply)
            },
        }
    }

    /// The state after the awaited access came back with `reply`. A transfer
    /// that is done stays as it is.
    pub open spec fn next(self, reply: u32) -> TransferView {
        match self.request() {
            None => self,
            Some(request) => (TransferView {
                log: self.log.push(Exchange { request, reply }),
                ..self
            }).react(reply),
        }
    }

    /// The result, once the transfer is done.
    pub open spec fn result(self) -> Option<Result<(), Error>> {
        match self.step {
            Step::Finished => Some(Ok(())),
            Step::Failed(e) => Some(Err(e)),
            _ => None,
        }
    }

    /// Well-formedness: the position lies inside the operations and fits the
    /// step.
    pub open spec fn wf(self) -> bool {
        &&& self.op >= 0
        &&& self.pos >= 0
        &&& self.ops.len() == 0 ==> self.step.is_terminal()
        &&& !self.step.is_terminal() ==> {
            &&& self.op < self.ops.len()
            &&& self.pos <= self.current().len()
        }
        &&& self.step.in_address_phase() ==> self.pos == 0
        &&& (self.step is TxEmptyWait || self.step is TxWrite || self.step is TxCompleteWait)
            ==> self.current() is Write && self.pos < self.current().len()
        &&& (self.step is RxWait || self.step is RxRead || self.step is NackStop)
            ==> self.current() is Read && self.pos < self.current().len()
        &&& self.step is NackStop ==> self.is_last() && self.pos == self.current().len() - 1
        &&& self.step is Stop ==> self.is_last() && self.current() is Write && self.pos
            == self.current().len()
        &&& self.clearing ==> self.step.watches_status() && flag_to_clear(self.snapshot) != 0
    }
}

} // verus!
