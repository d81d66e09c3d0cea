//! STS1 status word: flag positions, the fault taxonomy and the error monitor.

use vstd::prelude::*;

verus! {

/// Start condition generated (master mode).
pub const STARTF: u32 = 0x0001;
/// Address sent and acknowledged.
pub const ADDR7F: u32 = 0x0002;
/// Byte transfer complete.
pub const TDC: u32 = 0x0004;
/// Receive data register holds a byte.
pub const RDBF: u32 = 0x0040;
/// Transmit data register is empty.
pub const TDBE: u32 = 0x0080;
/// Bus error.
pub const BUSERR: u32 = 0x0100;
/// Arbitration lost.
pub const ARLOST: u32 = 0x0200;
/// Acknowledge failure.
pub const ACKFAIL: u32 = 0x0400;
/// Overrun or underrun.
pub const OUF: u32 = 0x0800;
/// Packet error check failed on reception.
pub const PECERR: u32 = 0x1000;
/// Bus timeout.
pub const TMOUT: u32 = 0x4000;

/// Where on the wire a missing acknowledge was noticed.
#[derive(Clone, Copy, Debug, PartialEq, Eq, Structural)]
pub enum NoAcknowledgeSource {
    /// While the target address was being sent.
    Address,
    /// While a data byte was being sent or received.
    Data,
    /// The phase is not known.
    Unknown,
}

/// Faults that end a transfer.
#[derive(Clone, Copy, Debug, PartialEq, Eq, Structural)]
#[non_exhaustive]
pub enum Error {
    Overrun,
    NoAcknowledge(NoAcknowledgeSource),
    Timeout,
    /// Kept for completeness: a bus-error flag is cleared and ignored, never reported.
    Bus,
    Crc,
    ArbitrationLoss,
}

impl Error {
    /// The same fault, with an acknowledge failure of unknown phase attributed to
    /// the address phase.
    pub open spec fn spec_nack_addr(self) -> Error {
        match self {
            Error::NoAcknowledge(NoAcknowledgeSource::Unknown) => Error::NoAcknowledge(
                NoAcknowledgeSource::Address,
            ),
            e => e,
        }
    }

    /// The same fault, with an acknowledge failure of unknown phase attributed to
    /// the data phase.
    pub open spec fn spec_nack_data(self) -> Error {
        match self {
            Error::NoAcknowledge(NoAcknowledgeSource::Unknown) => Error::NoAcknowledge(
                NoAcknowledgeSource::Data,
            ),
            e => e,
        }
    }

    #[verifier::when_used_as_spec(spec_nack_addr)]
    pub fn nack_addr(self) -> (e: Error)
        ensures
            e == self.spec_nack_addr(),
    {
        match self {
            Error::NoAcknowledge(NoAcknowledgeSource::Unknown) => Error::NoAcknowledge(
                NoAcknowledgeSource::Address,
            ),
            e => e,
        }
    }

    #[verifier::when_used_as_spec(spec_nack_data)]
    pub fn nack_data(self) -> (e: Error)
        ensures
            e == self.spec_nack_data(),
    {
        match self {
            Error::NoAcknowledge(NoAcknowledgeSource::Unknown) => Error::NoAcknowledge(
                NoAcknowledgeSource::Data,
            ),
            e => e,
        }
    }
}

/// True when bit `mask` is set in `word`.
pub open spec fn flag(word: u32, mask: u32) -> bool {
    word & mask != 0
}

/// The fault that a status word reports, by priority: timeout, packet error,
/// overrun, acknowledge failure, arbitration loss. A bus error is no fault.
pub open spec fn fault(sts1: u32) -> Option<Error> {
    if flag(sts1, TMOUT) {
        Some(Error::Timeout)
    } else if flag(sts1, PECERR) {
        Some(Error::Crc)
    } else if flag(sts1, OUF) {
        Some(Error::Overrun)
    } else if flag(sts1, ACKFAIL) {
        Some(Error::NoAcknowledge(NoAcknowledgeSource::Unknown))
    } else if flag(sts1, ARLOST) {
        Some(Error::ArbitrationLoss)
    } else {
        None
    }
}

/// The one flag that has to be cleared after `sts1` was observed, or zero: the
/// flag of the reported fault, else the bus-error flag when it is set.
pub open spec fn flag_to_clear(sts1: u32) -> u32 {
    if flag(sts1, TMOUT) {
        TMOUT
    } else if flag(sts1, PECERR) {
        PECERR
    } else if flag(sts1, OUF) {
        OUF
    } else if flag(sts1, ACKFAIL) {
        ACKFAIL
    } else if flag(sts1, ARLOST) {
        ARLOST
    } else if flag(sts1, BUSERR) {
        BUSERR
    } else {
        0
    }
}

/// Outcome of looking at one status word.
#[derive(Clone, Copy, Debug)]
pub struct StatusCheck {
    /// The status word itself when it reports no fault, else the fault.
    pub result: Result<u32, Error>,
    /// Mask of the single STS1 flag to clear, zero when there is none.
    pub clear: u32,
}

/// Looks at a status word that was just read from STS1. Reports the
/// highest-priority fault, or hands the word back when there is none, and names
/// the one flag that must now be cleared: only a flag that was seen set is ever
/// cleared. A bus-error flag alone is cleared and not reported.
pub fn check_and_clear_error_flags(sts1: u32) -> (out: StatusCheck)
    ensures
        out.result == (match fault(sts1) {
            Some(e) => Err::<u32, Error>(e),
            None => Ok::<u32, Error>(sts1),
        }),
        out.clear == flag_to_clear(sts1),
{
    if sts1 & TMOUT != 0 {
        StatusCheck { result: Err(Error::Timeout), clear: TMOUT }
    } else if sts1 & PECERR != 0 {
        StatusCheck { result: Err(Error::Crc), clear: PECERR }
    } else if sts1 & OUF != 0 {
        StatusCheck { result: Err(Error::Overrun), clear: OUF }
    } else if sts1 & ACKFAIL != 0 {
        StatusCheck {
            result: Err(Error::NoAcknowledge(NoAcknowledgeSource::Unknown)),
            clear: ACKFAIL,
        }
    } else if sts1 & ARLOST != 0 {
        StatusCheck { result: Err(Error::ArbitrationLoss), clear: ARLOST }
    } else if sts1 & BUSERR != 0 {
        StatusCheck { result: Ok(sts1), clear: BUSERR }
    } else {
        StatusCheck { result: Ok(sts1), clear: 0 }
    }
}

/// A status word whose only raised condition is the bus-error flag is no
/// failure: the check succeeds with the word itself and clears exactly that
/// flag.
pub proof fn lemma_bus_error_is_ignored(sts1: u32)
    requires
        flag(sts1, BUSERR),
        fault(sts1) is None,
    ensures
        flag_to_clear(sts1) == BUSERR,
{
}

/// A flag is cleared only if the observed word had it set, and at most one
/// flag is cleared per observation.
pub proof fn lemma_clear_only_observed(sts1: u32)
    ensures
        flag_to_clear(sts1) != 0 ==> flag(sts1, flag_to_clear(sts1)),
        flag_to_clear(sts1) == 0 <==> (fault(sts1) is None && !flag(sts1, BUSERR)),
{
}

} // verus!
