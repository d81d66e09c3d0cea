//! Master-side driver for the I2C bus controller.
//!
//! A transfer is a state machine: it names the next register access it needs
//! ([`Transfer::poll`]) and is handed the outcome ([`Transfer::advance`]). The
//! caller performs the accesses in a loop until the transfer is ready.

use vstd::prelude::*;

pub mod model;
pub mod protocol;
pub mod request;
pub mod status;
pub mod timing;
pub mod transfer;

pub use model::{Direction, OperationView, Step, TransferView};
pub use request::{modified, Exchange, Instance, Register, Registers, Request};
pub use status::{check_and_clear_error_flags, Error, NoAcknowledgeSource, StatusCheck};
pub use transfer::{Operation, Poll, Transfer};
pub use timing::{timing, DutyCycle, Mode, Timing};

verus! {

/// A copy of `bytes`.
pub fn to_vec(bytes: &[u8]) -> (out: Vec<u8>)
    ensures
        out@ == bytes@,
{
    let mut out: Vec<u8> = Vec::new();
    let mut i: usize = 0;
    while i < bytes.len()
        invariant
            i <= bytes.len(),
            out@ == bytes@.take(i as int),
        decreases bytes.len() - i,
    {
        out.push(bytes[i]);
        i = i + 1;
        assert(out@ =~= bytes@.take(i as int));
    }
    assert(bytes@.take(bytes.len() as int) =~= bytes@);
    out
}

/// The state in which a write of `bytes` followed by a read into `buffer`
/// starts: that of the transaction made of these two operations.
pub open spec fn write_read_start(addr: u8, bytes: Seq<u8>, buffer: Seq<u8>) -> TransferView {
    TransferView::initial(addr, seq![OperationView::Write(bytes), OperationView::Read(buffer)])
}

/// Writing and then reading is the transaction of a write and a read: both
/// start in the same state, and so stay the same whatever the registers
/// answer.
pub proof fn lemma_write_read_is_transaction(
    addr: u8,
    bytes: Seq<u8>,
    buffer: Seq<u8>,
    replies: Seq<u32>,
)
    ensures
        write_read_start(addr, bytes, buffer) == TransferView::initial(
            addr,
            seq![OperationView::Write(bytes), OperationView::Read(buffer)],
        ),
        protocol::run(write_read_start(addr, bytes, buffer), replies) == protocol::run(
            TransferView::initial(
                addr,
                seq![OperationView::Write(bytes), OperationView::Read(buffer)],
            ),
            replies,
        ),
{
}

/// The registers of a controller and a transfer after at most `n` of the
/// accesses that the transfer waits for were performed on the registers, one
/// after the other, each outcome being handed to the transfer. It ends early
/// when the transfer is done.
pub open spec fn driven(regs: Registers, v: TransferView, n: nat) -> (Registers, TransferView)
    decreases n,
{
    if n == 0 {
        (regs, v)
    } else {
        match v.request() {
            None => (regs, v),
            Some(request) => driven(
                regs.after(request),
                v.next(regs.reply(request)),
                (n - 1) as nat,
            ),
        }
    }
}

/// Handle of one bus controller. It owns the controller's register block and
/// the pins bound to it, and keeps the speed fields computed at construction.
pub struct I2c<I2C: Instance, PINS> {
    i2c: I2C,
    pins: PINS,
    timing: Timing,
}

impl<I2C: Instance, PINS> I2c<I2C, PINS> {
    /// The speed fields this handle was built with.
    pub closed spec fn spec_timing(&self) -> Timing {
        self.timing
    }

    /// What the registers of the controller hold.
    pub closed spec fn regs(&self) -> Registers {
        self.i2c.regs()
    }

    /// The pins bound to the controller.
    pub closed spec fn spec_pins(&self) -> PINS {
        self.pins
    }

    /// The controller itself.
    pub closed spec fn spec_instance(&self) -> I2C {
        self.i2c
    }

    /// Binds a controller and its pins: the clock of the controller is
    /// switched on, the controller is reset, and it is set up for `mode` on an
    /// input clock of `pclk` hertz.
    pub fn new(i2c: I2C, pins: PINS, mode: Mode, pclk: u32) -> (handle: Self)
        requires
            mode.valid(),
            timing::input_clock_supported(pclk),
        ensures
            handle.spec_timing() == timing::spec_timing(mode, pclk),
            handle.regs() == timing::spec_timing(mode, pclk).applied(Registers::spec_reset()),
            handle.spec_pins() == pins,
    {
        let mut i2c = i2c;
        i2c.enable();
        i2c.reset();
        let mut handle = I2c { i2c, pins, timing: timing(mode, pclk) };
        handle.i2c_init();
        handle
    }

    /// Gives the controller and the pins back.
    pub fn release(self) -> (parts: (I2C, PINS))
        ensures
            parts.0 == self.spec_instance(),
            parts.1 == self.spec_pins(),
    {
        (self.i2c, self.pins)
    }

    /// Writes the speed fields of this handle to the controller, which is
    /// disabled meanwhile.
    pub fn i2c_init(&mut self)
        ensures
            final(self).spec_timing() == old(self).spec_timing(),
            final(self).spec_pins() == old(self).spec_pins(),
            final(self).regs() == old(self).spec_timing().applied(old(self).regs()),
    {
        let clkfreq: u32 = self.timing.clkfreq as u32;
        let risetime: u32 = self.timing.risetime as u32 & 0x3F;
        let clkctrl: u32 = self.timing.clkctrl();
        self.i2c.perform(Request::Modify(Register::Ctrl1, request::I2CEN, 0));
        self.i2c.perform(Request::Write(Register::Ctrl2, clkfreq));
        self.i2c.perform(Request::Write(Register::Tmrise, risetime));
        self.i2c.perform(Request::Write(Register::Clkctrl, clkctrl));
        self.i2c.perform(Request::Modify(Register::Ctrl1, 0, request::I2CEN));
    }

    /// Performs the register access that `transfer` waits for and hands it the
    /// outcome. Gives the result once the transfer is done, which it may have
    /// been before.
    pub fn step(&mut self, transfer: &mut Transfer) -> (done: Option<Result<(), Error>>)
        requires
            old(transfer).wf(),
        ensures
            final(transfer).wf(),
            final(self).spec_timing() == old(self).spec_timing(),
            final(self).spec_pins() == old(self).spec_pins(),
            match old(transfer)@.request() {
                None => final(transfer)@ == old(transfer)@ && final(self).regs() == old(self).regs(),
                Some(request) => final(transfer)@ == old(transfer)@.next(
                    old(self).regs().reply(request),
                ) && final(self).regs() == old(self).regs().after(request),
            },
            done == final(transfer)@.result(),
    {
        match transfer.poll() {
            Poll::Ready(_) => {},
            Poll::Pending(request) => {
                let reply: u32 = self.i2c.perform(request);
                transfer.advance(reply);
            },
        }
        match transfer.poll() {
            Poll::Ready(result) => Some(result),
            Poll::Pending(_) => None,
        }
    }

    /// Performs up to `budget` of the register accesses that `transfer` waits
    /// for, and stops early when the transfer is done. Gives the result if it
    /// is done then. How long a transfer takes is up to the bus: the caller
    /// decides how often to come back.
    pub fn run(&mut self, transfer: &mut Transfer, budget: usize) -> (done: Option<
        Result<(), Error>,
    >)
        requires
            old(transfer).wf(),
        ensures
            final(transfer).wf(),
            final(self).spec_timing() == old(self).spec_timing(),
            final(self).spec_pins() == old(self).spec_pins(),
            (final(self).regs(), final(transfer)@) == driven(
                old(self).regs(),
                old(transfer)@,
                budget as nat,
            ),
            done == final(transfer)@.result(),
    {
        let mut left: usize = budget;
        loop
            invariant_except_break
                transfer.wf(),
                self.spec_timing() == old(self).spec_timing(),
                self.spec_pins() == old(self).spec_pins(),
                driven(self.regs(), transfer@, left as nat) == driven(
                    old(self).regs(),
                    old(transfer)@,
                    budget as nat,
                ),
            ensures
                transfer.wf(),
                self.spec_timing() == old(self).spec_timing(),
                self.spec_pins() == old(self).spec_pins(),
                (self.regs(), transfer@) == driven(
                    old(self).regs(),
                    old(transfer)@,
                    budget as nat,
                ),
            decreases left,
        {
            if left == 0 || transfer.is_ready() {
                break ;
            }
            self.step(transfer);
            left = left - 1;
        }
        match transfer.poll() {
            Poll::Ready(result) => Some(result),
            Poll::Pending(_) => None,
        }
    }

    /// Starts reading `buffer.len()` bytes from the target at `addr`. An empty
    /// buffer is refused with an overrun, and nothing reaches the bus.
    pub fn read(&mut self, addr: u8, buffer: Vec<u8>) -> (r: Result<Transfer, Error>)
        ensures
            *final(self) == *old(self),
            buffer@.len() == 0 ==> (r matches Err(e) && e == Error::Overrun),
            buffer@.len() > 0 ==> (r matches Ok(t) && t.wf() && t@ == TransferView::initial(
                addr,
                seq![OperationView::Read(buffer@)],
            )),
    {
        if buffer.len() == 0 {
            return Err(Error::Overrun);
        }
        let mut ops: Vec<Operation> = Vec::new();
        ops.push(Operation::Read(buffer));
        assert(transfer::view_all(ops@) =~= seq![OperationView::Read(buffer@)]);
        Ok(Transfer::new(addr, ops))
    }

    /// Starts writing `bytes` to the target at `addr`.
    pub fn write(&mut self, addr: u8, bytes: &[u8]) -> (t: Transfer)
        ensures
            *final(self) == *old(self),
            t.wf(),
            t@ == TransferView::initial(addr, seq![OperationView::Write(bytes@)]),
    {
        self.write_iter(addr, to_vec(bytes))
    }

    /// Starts writing `bytes`, which the transfer takes over, to the target at
    /// `addr`.
    pub fn write_iter(&mut self, addr: u8, bytes: Vec<u8>) -> (t: Transfer)
        ensures
            *final(self) == *old(self),
            t.wf(),
            t@ == TransferView::initial(addr, seq![OperationView::Write(bytes@)]),
    {
        let mut ops: Vec<Operation> = Vec::new();
        ops.push(Operation::Write(bytes));
        assert(transfer::view_all(ops@) =~= seq![OperationView::Write(bytes@)]);
        Transfer::new(addr, ops)
    }

    /// Starts writing `bytes` to the target at `addr` and then, after a
    /// repeated START, reading `buffer.len()` bytes from it.
    pub fn write_read(&mut self, addr: u8, bytes: &[u8], buffer: Vec<u8>) -> (t: Transfer)
        ensures
            *final(self) == *old(self),
            t.wf(),
            t@ == write_read_start(addr, bytes@, buffer@),
    {
        self.write_iter_read(addr, to_vec(bytes), buffer)
    }

    /// As [`I2c::write_read`], with bytes that the transfer takes over.
    pub fn write_iter_read(&mut self, addr: u8, bytes: Vec<u8>, buffer: Vec<u8>) -> (t:
        Transfer)
        ensures
            *final(self) == *old(self),
            t.wf(),
            t@ == write_read_start(addr, bytes@, buffer@),
    {
        let mut ops: Vec<Operation> = Vec::new();
        ops.push(Operation::Write(bytes));
        ops.push(Operation::Read(buffer));
        assert(transfer::view_all(ops@) =~= seq![
            OperationView::Write(bytes@),
            OperationView::Read(buffer@),
        ]);
        Transfer::new(addr, ops)
    }

    /// Starts the transaction of `ops`, in order, with the target at `addr`.
    /// Without operations it is done at once and nothing reaches the bus.
    pub fn transaction(&mut self, addr: u8, ops: Vec<Operation>) -> (t: Transfer)
        ensures
            *final(self) == *old(self),
            t.wf(),
            t@ == TransferView::initial(addr, transfer::view_all(ops@)),
            t@.log.len() == 0,
            ops@.len() == 0 ==> t@.result() == Some(Ok::<(), Error>(())),
            ops@.len() > 0 ==> t@.result() is None,
    {
        Transfer::new(addr, ops)
    }

    /// As [`I2c::transaction`], on a copy of the operations.
    pub fn transaction_slice(&mut self, addr: u8, ops_slice: &[Operation]) -> (t: Transfer)
        ensures
            *final(self) == *old(self),
            t.wf(),
            t@ == TransferView::initial(addr, transfer::view_all(ops_slice@)),
    {
        let mut ops: Vec<Operation> = Vec::new();
        let mut i: usize = 0;
        while i < ops_slice.len()
            invariant
                i <= ops_slice.len(),
                ops@.len() == i,
                forall|k: int| 0 <= k < i ==> ops@[k]@ == ops_slice@[k]@,
            decreases ops_slice.len() - i,
        {
            let copy: Operation = match &ops_slice[i] {
                Operation::Read(buffer) => Operation::Read(to_vec(buffer.as_slice())),
                Operation::Write(bytes) => Operation::Write(to_vec(bytes.as_slice())),
            };
            ops.push(copy);
            i = i + 1;
        }
        assert(transfer::view_all(ops@) =~= transfer::view_all(ops_slice@));
        Transfer::new(addr, ops)
    }
}

} // verus!
