use vstd::prelude::*;

verus! {

/// The wire protocol spoken between probe and target.
#[derive(Clone, Copy, Debug, PartialEq, Eq, Structural)]
pub enum WireProtocol {
    Swd,
    Jtag,
}

/// Protocol-level failures of a single Debug Access Port transaction.
#[derive(Clone, Copy, Debug, PartialEq, Eq, Structural)]
pub enum DapError {
    /// The target answered WAIT to a request that is not recovered, or to
    /// the line reset that ended a recovery.
    WaitResponse,
    /// The target answered FAULT and no sticky flag explained it.
    FaultResponse,
    /// The target did not drive the acknowledgement bits.
    NoAcknowledge,
    /// The parity bit of a read value did not match its data bits.
    IncorrectParity,
}

/// Transport-level failures, as seen by users of a probe.
#[derive(Clone, Copy, Debug, PartialEq, Eq, Structural)]
pub enum DebugProbeError {
    /// The probe cannot speak the requested wire protocol.
    UnsupportedProtocol(WireProtocol),
    /// The probe cannot run at the requested clock speed (kHz).
    UnsupportedSpeed(u32),
    /// The retry bound of a transaction was exhausted.
    Timeout,
    /// The requested operation is not supported.
    NotImplemented(NotImplementedKind),
    /// The probe's own driver reported a failure.
    ProbeSpecific,
    /// No connected probe matches the selector.
    ProbeNotFound,
    /// A register length of zero bits, or of more bits than the data holds.
    InvalidBitLength,
    /// A protocol-level failure, passed up from the transaction engine.
    Dap(DapError),
}

/// What an operation reported as `NotImplemented` was asked to do.
#[derive(Clone, Copy, Debug, PartialEq, Eq, Structural)]
pub enum NotImplementedKind {
    /// A JTAG instruction register wider than 8 bits.
    WideInstructionRegister,
    /// A JTAG register address that does not fit in 5 bits.
    WideRegisterAddress,
    /// A hardware reset without an explicit assert/deassert.
    TargetReset,
}

} // verus!
