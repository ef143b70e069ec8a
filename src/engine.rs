//! The Debug Access Port transaction engine.
//!
//! One register operation is driven as a state machine: the engine hands out
//! the bit sequence to put on the wire, the caller runs it on the probe and
//! hands back the sampled bits, and the engine decides what comes next. The
//! recovery paths of the protocol (line reset after no acknowledgement, ABORT
//! after WAIT, CTRL/STAT inspection after FAULT, RDBUFF after an Access-Port
//! read) run as nested operations on a stack of frames. A recovery request is
//! not itself recovered: an answer other than OK ends the operation, so the
//! stack never holds more than two frames and every operation ends after a
//! bounded number of sequences.
use vstd::prelude::*;
use vstd::slice::slice_subrange;
use crate::codec::{
    bits_to_byte, bits_value, build_swd_transfer, count_set, lemma_bits_round_trip,
    lemma_xor_fold_is_odd_count, parity_of, push_jtag_to_swd, push_repeat, repeat, transfer_direction, transfer_io,
    u32_bits, xor_fold, jtag_to_swd_bits, PortType, TransferType,
};
use crate::error::{DapError, DebugProbeError};

verus! {

/// Address of the DPIDR register, read at the end of a line reset.
pub const DPIDR_ADDRESS: u16 = 0x0;

/// Address of the ABORT register.
pub const ABORT_ADDRESS: u16 = 0x0;

/// Address of the CTRL/STAT register.
pub const CTRL_ADDRESS: u16 = 0x4;

/// Address of the RDBUFF register.
pub const RDBUFF_ADDRESS: u16 = 0xc;

/// ABORT: clear the sticky error flag.
pub const ABORT_STKERRCLR: u32 = 0x4;

/// ABORT: clear the sticky overrun flag.
pub const ABORT_ORUNERRCLR: u32 = 0x10;

/// CTRL/STAT: sticky overrun flag.
pub const CTRL_STICKYORUN: u32 = 0x2;

/// CTRL/STAT: sticky error flag.
pub const CTRL_STICKYERR: u32 = 0x20;

/// Attempts of one request before the engine gives up with a timeout.
pub const RETRY_LIMIT: u8 = 5;

/// Number of high bits that open a line reset.
pub const LINE_RESET_HIGH_BITS: usize = 50;

/// Idle bits between the switch pattern of a line reset and its DPIDR read.
pub const LINE_RESET_IDLE_BITS: usize = 2;

/// Fewest idle cycles after a write that guarantee it is latched.
pub const MIN_WRITE_IDLE_CYCLES: usize = 8;

/// The target's acknowledgement of a request.
#[derive(Clone, Copy, Debug, PartialEq, Eq, Structural)]
pub enum Ack {
    Okay,
    Wait,
    Fault,
    NoAck,
}

/// A register operation on the Debug Access Port.
#[derive(Clone, Copy, Debug, PartialEq, Eq, Structural)]
pub enum RegisterOp {
    Read(PortType, u16),
    Write(PortType, u16, u32),
}

/// What a frame of the engine is waiting for.
#[derive(Clone, Copy, Debug, PartialEq, Eq, Structural)]
pub enum Stage {
    /// The frame's own request is on the wire.
    Transfer,
    /// A line reset is on the wire; the count says how many failed before.
    LineReset(u8),
    /// A nested ABORT write is running.
    Abort,
    /// A nested CTRL/STAT read is running.
    CtrlStat,
    /// A nested RDBUFF read is running.
    RdBuff,
}

/// One operation in progress: what it is, which attempt it is on, and what
/// it waits for.
#[derive(Clone, Copy, Debug, PartialEq, Eq, Structural)]
pub struct Frame {
    pub op: RegisterOp,
    pub attempt: u8,
    pub stage: Stage,
}

/// Decoding of the three acknowledgement bits of a request: all high is no
/// acknowledgement, then the second bit means WAIT and the third FAULT.
pub open spec fn ack_of(a0: bool, a1: bool, a2: bool) -> Ack {
    if a0 && a1 && a2 {
        Ack::NoAck
    } else if a1 {
        Ack::Wait
    } else if a2 {
        Ack::Fault
    } else {
        Ack::Okay
    }
}

/// Decoding of the acknowledgement that ends a line reset, where only the
/// three exact patterns count and anything else is no acknowledgement.
pub open spec fn line_reset_ack_of(a0: bool, a1: bool, a2: bool) -> Ack {
    if a0 && !a1 && !a2 {
        Ack::Okay
    } else if !a0 && a1 && !a2 {
        Ack::Wait
    } else if !a0 && !a1 && a2 {
        Ack::Fault
    } else {
        Ack::NoAck
    }
}

/// The error that a failed acknowledgement stands for.
pub open spec fn ack_error(a: Ack) -> DapError {
    match a {
        Ack::Wait => DapError::WaitResponse,
        Ack::Fault => DapError::FaultResponse,
        _ => DapError::NoAcknowledge,
    }
}

/// The value of a Debug-Port read response: data bits 13 to 44, accepted
/// when bit 45 is set exactly when the data holds an odd number of ones.
pub open spec fn dp_read_value(response: Seq<bool>) -> Result<u32, DapError> {
    let v = bits_value(response.subrange(13, 45));
    if (count_set(u32_bits(v)) % 2 == 1) == response[45] {
        Ok(v)
    } else {
        Err(DapError::IncorrectParity)
    }
}

/// The ABORT value that clears the sticky flags set in a CTRL/STAT value,
/// or none when neither the overrun nor the error flag is set.
pub open spec fn fault_abort_value(ctrl: u32) -> Option<u32> {
    let orun = ctrl & CTRL_STICKYORUN != 0;
    let err = ctrl & CTRL_STICKYERR != 0;
    if orun || err {
        Some(
            (if orun {
                ABORT_ORUNERRCLR
            } else {
                0u32
            }) | (if err {
                ABORT_STKERRCLR
            } else {
                0u32
            }),
        )
    } else {
        None
    }
}

/// The SWDIO bits that open a line reset: 50 high bits, the JTAG-to-SWD
/// switch pattern, and an idle tail.
pub open spec fn line_reset_head() -> Seq<bool> {
    repeat(true, 50) + jtag_to_swd_bits() + repeat(false, 2)
}

/// The SWDIO bits of a line reset: its opening, then a read of DPIDR whose
/// acknowledgement tells whether the line is in sync.
pub open spec fn line_reset_io() -> Seq<bool> {
    line_reset_head() + transfer_io(PortType::DebugPort, TransferType::Read, DPIDR_ADDRESS)
}

/// The direction bits of a line reset: the opening is driven throughout.
pub open spec fn line_reset_direction() -> Seq<bool> {
    repeat(true, 68) + transfer_direction(TransferType::Read)
}

/// The SWDIO bits of an operation's request; a write ends with `idle` idle
/// cycles.
pub open spec fn op_io(op: RegisterOp, idle: nat) -> Seq<bool> {
    match op {
        RegisterOp::Read(p, a) => transfer_io(p, TransferType::Read, a),
        RegisterOp::Write(p, a, v) => transfer_io(p, TransferType::Write(v), a) + repeat(
            false,
            idle,
        ),
    }
}

/// The direction bits of an operation's request.
pub open spec fn op_direction(op: RegisterOp, idle: nat) -> Seq<bool> {
    match op {
        RegisterOp::Read(_, _) => transfer_direction(TransferType::Read),
        RegisterOp::Write(_, _, v) => transfer_direction(TransferType::Write(v)) + repeat(
            true,
            idle,
        ),
    }
}

/// What a frame puts on the wire: its request, or a line reset.
pub open spec fn frame_io(f: Frame, idle: nat) -> Seq<bool> {
    if f.stage is LineReset {
        line_reset_io()
    } else {
        op_io(f.op, idle)
    }
}

/// Direction bits of what a frame puts on the wire.
pub open spec fn frame_direction(f: Frame, idle: nat) -> Seq<bool> {
    if f.stage is LineReset {
        line_reset_direction()
    } else {
        op_direction(f.op, idle)
    }
}

/// A fresh operation, on its first attempt.
pub open spec fn fresh(op: RegisterOp) -> Frame {
    Frame { op, attempt: 0, stage: Stage::Transfer }
}

/// The last frame of `s`, waiting for something else.
pub open spec fn with_stage(s: Seq<Frame>, stage: Stage) -> Seq<Frame> {
    s.update(s.len() - 1, Frame { stage, ..s.last() })
}

/// Whether the last frame of `s` has used up its attempts.
pub open spec fn exhausted(s: Seq<Frame>) -> bool {
    s.last().attempt + 1 >= RETRY_LIMIT
}

/// The last frame of `s`, on its next attempt.
pub open spec fn next_attempt(s: Seq<Frame>) -> Seq<Frame> {
    s.update(
        s.len() - 1,
        Frame { op: s.last().op, attempt: (s.last().attempt + 1) as u8, stage: Stage::Transfer },
    )
}

/// The last frame of `s` completes with `result`, which is handed to the
/// frame below it; the outcome is the new stack, and the result of the
/// outermost operation once the stack is empty.
pub open spec fn finish(s: Seq<Frame>, result: Result<u32, DebugProbeError>) -> (Seq<
    Frame,
>, Option<Result<u32, DebugProbeError>>)
    decreases s.len(),
{
    if s.len() <= 1 {
        (Seq::empty(), Some(result))
    } else {
        let rest = s.drop_last();
        match rest.last().stage {
            Stage::Abort => match result {
                Ok(_) => if exhausted(rest) {
                    finish(rest, Err(DebugProbeError::Timeout))
                } else {
                    (next_attempt(rest), None)
                },
                Err(e) => finish(rest, Err(e)),
            },
            Stage::CtrlStat => match result {
                Ok(ctrl) => match fault_abort_value(ctrl) {
                    Some(a) => (
                        with_stage(rest, Stage::Abort).push(
                            fresh(RegisterOp::Write(PortType::DebugPort, ABORT_ADDRESS, a)),
                        ),
                        None,
                    ),
                    None => finish(rest, Err(DebugProbeError::Dap(DapError::FaultResponse))),
                },
                Err(e) => finish(rest, Err(e)),
            },
            _ => finish(rest, result),
        }
    }
}

/// The last frame of `s` tries its request again, or times out.
pub open spec fn retry(s: Seq<Frame>) -> (Seq<Frame>, Option<Result<u32, DebugProbeError>>) {
    if exhausted(s) {
        finish(s, Err(DebugProbeError::Timeout))
    } else {
        (next_attempt(s), None)
    }
}

/// One transition of the engine on the bits sampled for the last frame's
/// sequence. The operation that was asked for, and each recovery request
/// it issues (ABORT, CTRL/STAT or RDBUFF), recover from WAIT, FAULT and a
/// missing acknowledgement; a request issued while recovering a recovery
/// request is not recovered in turn, and an answer other than OK to it ends
/// the operation with the error of that answer.
pub open spec fn step_of(s: Seq<Frame>, response: Seq<bool>) -> (Seq<Frame>, Option<
    Result<u32, DebugProbeError>,
>) {
    let f = s.last();
    match f.stage {
        Stage::LineReset(t) => {
            let ack = line_reset_ack_of(response[78], response[79], response[80]);
            if ack == Ack::Okay {
                retry(s)
            } else if t == 0 {
                (with_stage(s, Stage::LineReset(1)), None)
            } else {
                finish(s, Err(DebugProbeError::Dap(ack_error(ack))))
            }
        },
        _ => {
            let ack = ack_of(response[10], response[11], response[12]);
            if s.len() > 2 && ack != Ack::Okay {
                finish(s, Err(DebugProbeError::Dap(ack_error(ack))))
            } else {
                match ack {
                    Ack::NoAck => (with_stage(s, Stage::LineReset(0)), None),
                    Ack::Wait => (
                        with_stage(s, Stage::Abort).push(
                            fresh(
                                RegisterOp::Write(
                                    PortType::DebugPort,
                                    ABORT_ADDRESS,
                                    ABORT_ORUNERRCLR,
                                ),
                            ),
                        ),
                        None,
                    ),
                    Ack::Fault => (
                        with_stage(s, Stage::CtrlStat).push(
                            fresh(RegisterOp::Read(PortType::DebugPort, CTRL_ADDRESS)),
                        ),
                        None,
                    ),
                    Ack::Okay => match f.op {
                        RegisterOp::Read(PortType::DebugPort, _) => finish(
                            s,
                            match dp_read_value(response) {
                                Ok(v) => Ok(v),
                                Err(e) => Err(DebugProbeError::Dap(e)),
                            },
                        ),
                        RegisterOp::Read(PortType::AccessPort(_), _) => (
                            with_stage(s, Stage::RdBuff).push(
                                fresh(RegisterOp::Read(PortType::DebugPort, RDBUFF_ADDRESS)),
                            ),
                            None,
                        ),
                        RegisterOp::Write(_, _, v) => finish(s, Ok(v)),
                    },
                }
            }
        },
    }
}

/// Whether `op` addresses a Debug-Port register.
pub open spec fn on_debug_port(op: RegisterOp) -> bool {
    match op {
        RegisterOp::Read(p, _) => p is DebugPort,
        RegisterOp::Write(p, _, _) => p is DebugPort,
    }
}

/// Whether a frame on the wire is in a state the engine can be in.
pub open spec fn on_wire(f: Frame) -> bool {
    match f.stage {
        Stage::Transfer => true,
        Stage::LineReset(t) => t < 2,
        _ => false,
    }
}

/// A stack of a running engine: the operation asked for, on one of its
/// permitted attempts; above it at most one recovery request, a Debug-Port
/// request on one of its own permitted attempts; and above that at most one
/// fresh Debug-Port request that recovers the recovery request. Every frame
/// but the last waits for the one above it.
pub open spec fn running(s: Seq<Frame>) -> bool {
    &&& 1 <= s.len() <= 3
    &&& s[0].attempt < RETRY_LIMIT
    &&& s.len() == 1 ==> on_wire(s[0])
    &&& s.len() >= 2 ==> {
        &&& s[0].stage is Abort || s[0].stage is CtrlStat || s[0].stage is RdBuff
        &&& s[1].attempt < RETRY_LIMIT
        &&& on_debug_port(s[1].op)
    }
    &&& s.len() == 2 ==> on_wire(s[1])
    &&& s.len() == 3 ==> {
        &&& s[1].stage is Abort || s[1].stage is CtrlStat
        &&& s[2] == fresh(s[2].op)
        &&& on_debug_port(s[2].op)
    }
}

/// An upper bound on the sequences that a recovery request in frame `f`
/// still puts on the wire: three for each attempt left after the current
/// one, and at most three within the current one.
pub open spec fn request_cost(f: Frame) -> nat {
    (3 * (RETRY_LIMIT - 1 - f.attempt)) as nat + match f.stage {
        Stage::Transfer => 3nat,
        Stage::LineReset(t) => if t == 0 {
            2nat
        } else {
            1nat
        },
        Stage::CtrlStat => 2nat,
        _ => 1nat,
    }
}

/// An upper bound on the sequences a running engine still puts on the
/// wire: for each attempt of the operation left after the current one, its
/// request and two fresh recovery requests (15 sequences at most each);
/// within the current attempt, what is left of it.
pub open spec fn remaining(s: Seq<Frame>) -> nat {
    let later = (31 * (RETRY_LIMIT - 1 - s[0].attempt)) as nat;
    later + if s.len() == 1 {
        match s[0].stage {
            Stage::Transfer => 31nat,
            Stage::LineReset(t) => if t == 0 {
                2nat
            } else {
                1nat
            },
            _ => 1nat,
        }
    } else {
        (if s[0].stage is CtrlStat {
            15nat
        } else {
            0nat
        }) + request_cost(s[1])
    }
}

/// Runs one register operation over SWD, one wire sequence at a time.
pub struct DapEngine {
    stack: Vec<Frame>,
    write_idle: usize,
}

impl DapEngine {
    /// The frames in progress, outermost first.
    pub closed spec fn frames(&self) -> Seq<Frame> {
        self.stack@
    }

    /// Idle cycles appended to every write request.
    pub closed spec fn write_idle(&self) -> nat {
        self.write_idle as nat
    }

    /// Starts the operation `op` on its first attempt; every write it issues
    /// ends with `write_idle` idle cycles.
    pub fn new(op: RegisterOp, write_idle: usize) -> (r: DapEngine)
        requires
            write_idle >= MIN_WRITE_IDLE_CYCLES,
        ensures
            r.frames() == seq![fresh(op)],
            r.write_idle() == write_idle,
            running(r.frames()),
    {
        let r = DapEngine {
            stack: vec![Frame { op, attempt: 0, stage: Stage::Transfer }],
            write_idle,
        };
        assert(r.frames() =~= seq![fresh(op)]);
        r
    }

    /// Starts a read of register `address` of `port`. Driven with `transfer`
    /// and `step`, it runs as `run` describes from `on_attempt(op, 0)`.
    pub fn read_register(port: PortType, address: u16, write_idle: usize) -> (r: DapEngine)
        requires
            write_idle >= MIN_WRITE_IDLE_CYCLES,
        ensures
            r.frames() == on_attempt(RegisterOp::Read(port, address), 0),
            r.write_idle() == write_idle,
            running(r.frames()),
    {
        DapEngine::new(RegisterOp::Read(port, address), write_idle)
    }

    /// Starts a write of `value` to register `address` of `port`. Driven with
    /// `transfer` and `step`, it runs as `run` describes from
    /// `on_attempt(op, 0)`.
    pub fn write_register(port: PortType, address: u16, value: u32, write_idle: usize) -> (r:
        DapEngine)
        requires
            write_idle >= MIN_WRITE_IDLE_CYCLES,
        ensures
            r.frames() == on_attempt(RegisterOp::Write(port, address, value), 0),
            r.write_idle() == write_idle,
            running(r.frames()),
    {
        DapEngine::new(RegisterOp::Write(port, address, value), write_idle)
    }

    /// Whether the operation has completed.
    pub fn is_done(&self) -> (r: bool)
        ensures
            r == (self.frames().len() == 0),
    {
        self.stack.len() == 0
    }

    /// The sequence to run on the probe next: SWDIO bits and direction bits.
    pub fn transfer(&self) -> (r: (Vec<bool>, Vec<bool>))
        requires
            self.frames().len() > 0,
        ensures
            r.0@ == frame_io(self.frames().last(), self.write_idle()),
            r.1@ == frame_direction(self.frames().last(), self.write_idle()),
            r.0@.len() == r.1@.len(),
    {
        let f = self.stack[self.stack.len() - 1];
        match f.stage {
            Stage::LineReset(_) => line_reset_transfer(),
            _ => op_transfer(f.op, self.write_idle),
        }
    }

    /// Hands `result` of the last frame down the stack.
    fn complete(&mut self, result: Result<u32, DebugProbeError>) -> (r: Option<
        Result<u32, DebugProbeError>,
    >)
        requires
            old(self).frames().len() >= 1,
        ensures
            (final(self).frames(), r) == finish(old(self).frames(), result),
            final(self).write_idle() == old(self).write_idle(),
    {
        let mut res = result;
        loop
            invariant
                self.stack@.len() >= 1,
                self.write_idle == old(self).write_idle,
                finish(self.stack@, res) == finish(old(self).stack@, result),
            decreases self.stack@.len(),
        {
            let ghost s = self.stack@;
            self.stack.pop();
            assert(self.stack@ =~= s.drop_last());
            if self.stack.len() == 0 {
                return Some(res);
            }
            let last = self.stack.len() - 1;
            let p = self.stack[last];
            match p.stage {
                Stage::Abort => {
                    if res.is_ok() {
                        if p.attempt >= RETRY_LIMIT - 1 {
                            res = Err(DebugProbeError::Timeout);
                        } else {
                            self.stack.set(
                                last,
                                Frame { op: p.op, attempt: p.attempt + 1, stage: Stage::Transfer },
                            );
                            return None;
                        }
                    }
                },
                Stage::CtrlStat => {
                    if let Ok(ctrl) = res {
                        match fault_recovery(ctrl) {
                            Some(a) => {
                                self.stack.set(
                                    last,
                                    Frame { op: p.op, attempt: p.attempt, stage: Stage::Abort },
                                );
                                self.stack.push(
                                    Frame {
                                        op: RegisterOp::Write(PortType::DebugPort, ABORT_ADDRESS, a),
                                        attempt: 0,
                                        stage: Stage::Transfer,
                                    },
                                );
                                return None;
                            },
                            None => {
                                res = Err(DebugProbeError::Dap(DapError::FaultResponse));
                            },
                        }
                    }
                },
                _ => {},
            }
        }
    }

    /// Takes the bits sampled while the sequence of `transfer` ran, and
    /// moves on: to the next sequence (`None`), or to the operation's result.
    /// A write's result is the value written. Each step that goes on lowers
    /// `remaining`, so every operation ends.
    pub fn step(&mut self, response: &[bool]) -> (r: Option<Result<u32, DebugProbeError>>)
        requires
            running(old(self).frames()),
            response@.len() == frame_io(old(self).frames().last(), old(self).write_idle()).len(),
        ensures
            (final(self).frames(), r) == step_of(old(self).frames(), response@),
            final(self).write_idle() == old(self).write_idle(),
            r is None ==> running(final(self).frames()) && remaining(final(self).frames())
                < remaining(old(self).frames()),
            r is Some ==> final(self).frames().len() == 0,
    {
        let ghost s = self.stack@;
        let last = self.stack.len() - 1;
        let f = self.stack[last];
        proof {
            lemma_frame_io_len(f, self.write_idle as nat);
            lemma_finish_error(s, DebugProbeError::Timeout);
        }
        match f.stage {
            Stage::LineReset(t) => {
                let ack = classify_line_reset_ack(response[78], response[79], response[80]);
                if ack == Ack::Okay {
                    if f.attempt >= RETRY_LIMIT - 1 {
                        self.complete(Err(DebugProbeError::Timeout))
                    } else {
                        self.stack.set(
                            last,
                            Frame { op: f.op, attempt: f.attempt + 1, stage: Stage::Transfer },
                        );
                        None
                    }
                } else if t == 0 {
                    self.stack.set(
                        last,
                        Frame { op: f.op, attempt: f.attempt, stage: Stage::LineReset(1) },
                    );
                    None
                } else {
                    let e = DebugProbeError::Dap(ack_to_error(ack));
                    proof {
                        lemma_finish_error(s, e);
                    }
                    self.complete(Err(e))
                }
            },
            _ => {
                let ack = classify_ack(response[10], response[11], response[12]);
                if self.stack.len() > 2 && ack != Ack::Okay {
                    let e = DebugProbeError::Dap(ack_to_error(ack));
                    proof {
                        lemma_finish_error(s, e);
                    }
                    return self.complete(Err(e));
                }
                match ack {
                    Ack::NoAck => {
                        self.stack.set(
                            last,
                            Frame { op: f.op, attempt: f.attempt, stage: Stage::LineReset(0) },
                        );
                        None
                    },
                    Ack::Wait => {
                        self.push_nested(
                            f,
                            Stage::Abort,
                            RegisterOp::Write(PortType::DebugPort, ABORT_ADDRESS, ABORT_ORUNERRCLR),
                        );
                        None
                    },
                    Ack::Fault => {
                        self.push_nested(
                            f,
                            Stage::CtrlStat,
                            RegisterOp::Read(PortType::DebugPort, CTRL_ADDRESS),
                        );
                        None
                    },
                    Ack::Okay => match f.op {
                        RegisterOp::Read(PortType::DebugPort, _) => {
                            let res = match decode_dp_read(response) {
                                Ok(v) => Ok(v),
                                Err(e) => Err(DebugProbeError::Dap(e)),
                            };
                            proof {
                                lemma_finish_running(s, res);
                            }
                            self.complete(res)
                        },
                        RegisterOp::Read(PortType::AccessPort(_), _) => {
                            self.push_nested(
                                f,
                                Stage::RdBuff,
                                RegisterOp::Read(PortType::DebugPort, RDBUFF_ADDRESS),
                            );
                            None
                        },
                        RegisterOp::Write(_, _, v) => {
                            proof {
                                lemma_finish_running(s, Ok(v));
                            }
                            self.complete(Ok(v))
                        },
                    },
                }
            },
        }
    }

    /// The last frame waits in `stage` for the nested operation `op`.
    fn push_nested(&mut self, f: Frame, stage: Stage, op: RegisterOp)
        requires
            old(self).frames().len() >= 1,
            f == old(self).frames().last(),
        ensures
            final(self).frames() == with_stage(old(self).frames(), stage).push(fresh(op)),
            final(self).write_idle() == old(self).write_idle(),
    {
        let last = self.stack.len() - 1;
        self.stack.set(last, Frame { op: f.op, attempt: f.attempt, stage });
        self.stack.push(Frame { op, attempt: 0, stage: Stage::Transfer });
    }
}

/// The SWDIO and direction bits of a line reset.
pub fn line_reset_transfer() -> (r: (Vec<bool>, Vec<bool>))
    ensures
        r.0@ == line_reset_io(),
        r.1@ == line_reset_direction(),
        r.0@.len() == r.1@.len(),
{
    let mut io: Vec<bool> = Vec::new();
    let mut dir: Vec<bool> = Vec::new();
    push_repeat(&mut io, true, LINE_RESET_HIGH_BITS);
    push_jtag_to_swd(&mut io);
    push_repeat(&mut io, false, LINE_RESET_IDLE_BITS);
    assert(io@ =~= line_reset_head());
    push_repeat(&mut dir, true, LINE_RESET_HIGH_BITS + 16 + LINE_RESET_IDLE_BITS);
    let (mut req_io, mut req_dir) = build_swd_transfer(
        PortType::DebugPort,
        TransferType::Read,
        DPIDR_ADDRESS,
    );
    io.append(&mut req_io);
    dir.append(&mut req_dir);
    (io, dir)
}

/// The SWDIO and direction bits of an operation's request, a write ending
/// with `idle` idle cycles.
pub fn op_transfer(op: RegisterOp, idle: usize) -> (r: (Vec<bool>, Vec<bool>))
    ensures
        r.0@ == op_io(op, idle as nat),
        r.1@ == op_direction(op, idle as nat),
        r.0@.len() == r.1@.len(),
{
    match op {
        RegisterOp::Read(p, a) => build_swd_transfer(p, TransferType::Read, a),
        RegisterOp::Write(p, a, v) => {
            let (mut io, mut dir) = build_swd_transfer(p, TransferType::Write(v), a);
            push_repeat(&mut io, false, idle);
            push_repeat(&mut dir, true, idle);
            (io, dir)
        },
    }
}

/// Tries of a line reset before its failure is reported.
pub const LINE_RESET_TRIES: u8 = 2;

/// What follows a line reset run on its own, outside an operation.
#[derive(Clone, Copy, Debug, PartialEq, Eq, Structural)]
pub enum LineResetOutcome {
    /// The target acknowledged; the line is in sync.
    Synced,
    /// Run the line reset again.
    Again,
    /// The target never acknowledged; this is the last answer's error.
    Failed(DapError),
}

/// The outcome of a line reset after `tries` earlier failed ones, from the
/// bits sampled while it ran: acknowledged, tried once more, or failed with
/// the error of its acknowledgement.
pub fn line_reset_step(tries: u8, response: &[bool]) -> (r: LineResetOutcome)
    requires
        response@.len() == line_reset_io().len(),
    ensures
        r == {
            let ack = line_reset_ack_of(response@[78], response@[79], response@[80]);
            if ack == Ack::Okay {
                LineResetOutcome::Synced
            } else if tries + 1 < LINE_RESET_TRIES {
                LineResetOutcome::Again
            } else {
                LineResetOutcome::Failed(ack_error(ack))
            }
        },
{
    assert(transfer_io(PortType::DebugPort, TransferType::Read, DPIDR_ADDRESS).len() == 47);
    let ack = classify_line_reset_ack(response[78], response[79], response[80]);
    if ack == Ack::Okay {
        LineResetOutcome::Synced
    } else if tries < LINE_RESET_TRIES - 1 {
        LineResetOutcome::Again
    } else {
        LineResetOutcome::Failed(ack_to_error(ack))
    }
}

/// Decodes the three acknowledgement bits of a request.
pub fn classify_ack(a0: bool, a1: bool, a2: bool) -> (r: Ack)
    ensures
        r == ack_of(a0, a1, a2),
{
    if a0 && a1 && a2 {
        Ack::NoAck
    } else if a1 {
        Ack::Wait
    } else if a2 {
        Ack::Fault
    } else {
        Ack::Okay
    }
}

/// Decodes the acknowledgement that ends a line reset.
pub fn classify_line_reset_ack(a0: bool, a1: bool, a2: bool) -> (r: Ack)
    ensures
        r == line_reset_ack_of(a0, a1, a2),
{
    if a0 && !a1 && !a2 {
        Ack::Okay
    } else if !a0 && a1 && !a2 {
        Ack::Wait
    } else if !a0 && !a1 && a2 {
        Ack::Fault
    } else {
        Ack::NoAck
    }
}

/// The protocol error that a failed acknowledgement stands for.
pub fn ack_to_error(a: Ack) -> (r: DapError)
    ensures
        r == ack_error(a),
{
    match a {
        Ack::Wait => DapError::WaitResponse,
        Ack::Fault => DapError::FaultResponse,
        _ => DapError::NoAcknowledge,
    }
}

/// Decodes the value of a Debug-Port read from its sampled response.
pub fn decode_dp_read(response: &[bool]) -> (r: Result<u32, DapError>)
    requires
        response@.len() >= 46,
    ensures
        r == dp_read_value(response@),
{
    let v = bits_to_byte(slice_subrange(response, 13, 45));
    let p = parity_of(v);
    proof {
        lemma_xor_fold_is_odd_count(u32_bits(v));
    }
    if p == response[45] {
        Ok(v)
    } else {
        Err(DapError::IncorrectParity)
    }
}

/// The ABORT value that clears the sticky flags of a CTRL/STAT value, if any
/// explains a FAULT.
pub fn fault_recovery(ctrl: u32) -> (r: Option<u32>)
    ensures
        r == fault_abort_value(ctrl),
{
    let orun = ctrl & CTRL_STICKYORUN != 0;
    let err = ctrl & CTRL_STICKYERR != 0;
    if orun || err {
        let a = if orun {
            ABORT_ORUNERRCLR
        } else {
            0u32
        };
        let b = if err {
            ABORT_STKERRCLR
        } else {
            0u32
        };
        Some(a | b)
    } else {
        None
    }
}

proof fn lemma_frame_io_len(f: Frame, idle: nat)
    ensures
        f.stage is LineReset ==> frame_io(f, idle).len() == 115,
        !(f.stage is LineReset) ==> frame_io(f, idle).len() >= 47,
{
    match f.op {
        RegisterOp::Read(p, a) => {
            assert(transfer_io(p, TransferType::Read, a).len() == 47);
        },
        RegisterOp::Write(p, a, v) => {
            assert(transfer_io(p, TransferType::Write(v), a).len() == 48);
        },
    }
    assert(transfer_io(PortType::DebugPort, TransferType::Read, DPIDR_ADDRESS).len() == 47);
}

/// Completing the last frame of a running stack leaves a running stack
/// that has less left to do, or an empty one together with the final result.
proof fn lemma_finish_running(s: Seq<Frame>, result: Result<u32, DebugProbeError>)
    requires
        running(s),
    ensures
        finish(s, result).1 is None ==> running(finish(s, result).0) && remaining(
            finish(s, result).0,
        ) < remaining(s),
        finish(s, result).1 is Some ==> finish(s, result).0.len() == 0,
    decreases s.len(),
{
    if s.len() == 2 {
        let rest = s.drop_last();
        assert(rest.len() == 1 && rest[0] == s[0]);
        lemma_finish_error(rest, DebugProbeError::Timeout);
        lemma_finish_error(rest, DebugProbeError::Dap(DapError::FaultResponse));
        match result {
            Err(e) => lemma_finish_error(rest, e),
            Ok(_) => {
                assert(finish(rest, result) == (Seq::<Frame>::empty(), Some(result)));
            },
        }
        match rest.last().stage {
            Stage::CtrlStat => match result {
                Ok(ctrl) => match fault_abort_value(ctrl) {
                    Some(a) => {
                        let n = with_stage(rest, Stage::Abort).push(
                            fresh(RegisterOp::Write(PortType::DebugPort, ABORT_ADDRESS, a)),
                        );
                        assert(n.len() == 2 && n[0].stage is Abort && n[0].attempt == s[0].attempt);
                        assert(request_cost(n[1]) == 15);
                    },
                    None => {},
                },
                Err(_) => {},
            },
            _ => {},
        }
    } else if s.len() == 3 {
        let rest = s.drop_last();
        assert(rest.len() == 2 && rest[0] == s[0] && rest[1] == s[1]);
        lemma_finish_error(rest, DebugProbeError::Timeout);
        lemma_finish_error(rest, DebugProbeError::Dap(DapError::FaultResponse));
        match result {
            Err(e) => lemma_finish_error(rest, e),
            Ok(_) => {},
        }
        match rest.last().stage {
            Stage::Abort => match result {
                Ok(_) => {
                    if !exhausted(rest) {
                        let n = next_attempt(rest);
                        assert(n.len() == 2 && n[0] == s[0]);
                        assert(n[1].attempt == s[1].attempt + 1 && n[1].stage is Transfer);
                    }
                },
                Err(_) => {},
            },
            Stage::CtrlStat => match result {
                Ok(ctrl) => match fault_abort_value(ctrl) {
                    Some(a) => {
                        let n = with_stage(rest, Stage::Abort).push(
                            fresh(RegisterOp::Write(PortType::DebugPort, ABORT_ADDRESS, a)),
                        );
                        assert(n.len() == 3 && n[0] == s[0] && n[1].stage is Abort);
                        assert(n[1].attempt == s[1].attempt);
                    },
                    None => {},
                },
                Err(_) => {},
            },
            _ => {},
        }
    }
}

/// A request answered with all three acknowledgement bits high is followed
/// by a line reset: the same operation, on the same attempt, puts the line
/// reset sequence on the wire next.
pub proof fn lemma_no_ack_line_reset(s: Seq<Frame>, response: Seq<bool>, idle: nat)
    requires
        running(s),
        s.len() == 1,
        s.last().stage is Transfer,
        response.len() == frame_io(s.last(), idle).len(),
        response[10] && response[11] && response[12],
    ensures
        step_of(s, response).1 is None,
        step_of(s, response).0.len() == s.len(),
        step_of(s, response).0.last().op == s.last().op,
        step_of(s, response).0.last().attempt == s.last().attempt,
        frame_io(step_of(s, response).0.last(), idle) == line_reset_io(),
        frame_direction(step_of(s, response).0.last(), idle) == line_reset_direction(),
{
}

/// While a line reset is on the wire, the operation goes back to its own
/// request only after the line reset was acknowledged, and then on its next
/// attempt.
pub proof fn lemma_retry_after_line_reset(s: Seq<Frame>, response: Seq<bool>, idle: nat)
    requires
        running(s),
        s.last().stage is LineReset,
        response.len() == frame_io(s.last(), idle).len(),
    ensures
        ({
            let (t, r) = step_of(s, response);
            r is None && t.len() == s.len() && t.last().stage is Transfer ==> line_reset_ack_of(
                response[78],
                response[79],
                response[80],
            ) == Ack::Okay && t.last().op == s.last().op && t.last().attempt == s.last().attempt
                + 1
        }),
{
    lemma_finish_error(s, DebugProbeError::Timeout);
    lemma_finish_error(s, DebugProbeError::Dap(DapError::WaitResponse));
    lemma_finish_error(s, DebugProbeError::Dap(DapError::FaultResponse));
    lemma_finish_error(s, DebugProbeError::Dap(DapError::NoAcknowledge));
}

/// An error of a nested operation ends every operation below it with the
/// same error.
pub proof fn lemma_finish_error(s: Seq<Frame>, e: DebugProbeError)
    ensures
        finish(s, Err(e)) == (Seq::<Frame>::empty(), Some(Err::<u32, DebugProbeError>(e))),
    decreases s.len(),
{
    if s.len() > 1 {
        lemma_finish_error(s.drop_last(), e);
    }
}

/// An Access-Port read that is acknowledged goes on with a Debug-Port read
/// of RDBUFF, whatever data bits came with the acknowledgement.
pub proof fn lemma_ap_read_reads_rdbuff(s: Seq<Frame>, response: Seq<bool>, other: Seq<bool>)
    requires
        running(s),
        s.len() == 1,
        s.last().stage is Transfer,
        s.last().op is Read,
        s.last().op->Read_0 is AccessPort,
        ack_of(response[10], response[11], response[12]) == Ack::Okay,
        other.len() == response.len(),
        other[10] == response[10] && other[11] == response[11] && other[12] == response[12],
    ensures
        step_of(s, response) == step_of(s, other),
        step_of(s, response).1 is None,
        step_of(s, response).0 == with_stage(s, Stage::RdBuff).push(
            fresh(RegisterOp::Read(PortType::DebugPort, RDBUFF_ADDRESS)),
        ),
{
}

/// The result of an operation that waits for its RDBUFF read is the result
/// of that read, unchanged.
pub proof fn lemma_rdbuff_result(s: Seq<Frame>, result: Result<u32, DebugProbeError>)
    requires
        s.len() >= 2,
        s[s.len() - 2].stage is RdBuff,
    ensures
        finish(s, result) == finish(s.drop_last(), result),
{
}

/// A Debug-Port read that is acknowledged completes with the value of its
/// data bits when their parity matches, and with a parity error otherwise;
/// it is never tried again.
pub proof fn lemma_dp_read_result(s: Seq<Frame>, response: Seq<bool>)
    requires
        running(s),
        s.len() == 1,
        s.last().stage is Transfer,
        s.last().op is Read,
        s.last().op->Read_0 is DebugPort,
        ack_of(response[10], response[11], response[12]) == Ack::Okay,
    ensures
        step_of(s, response).1 == Some(
            match dp_read_value(response) {
                Ok(v) => Ok(v),
                Err(e) => Err(DebugProbeError::Dap(e)),
            },
        ),
{
}

/// A WAIT on the last permitted attempt ends the operation with a timeout
/// once the overrun flag is cleared; no further attempt is made.
pub proof fn lemma_wait_on_last_attempt(s: Seq<Frame>, result: u32)
    requires
        s.len() == 2,
        s[0].stage is Abort,
        s[0].attempt == RETRY_LIMIT - 1,
    ensures
        finish(s, Ok(result)) == (Seq::<Frame>::empty(), Some(
            Err::<u32, DebugProbeError>(DebugProbeError::Timeout),
        )),
{
    let rest = s.drop_last();
    assert(rest.last() == s[0]);
    lemma_finish_error(rest, DebugProbeError::Timeout);
}

/// A Debug-Port read response that carries `v` in its data bits, followed
/// by the parity bit the target computes for `v`, decodes to `v`.
pub proof fn lemma_dp_read_round_trip(response: Seq<bool>, v: u32)
    requires
        response.len() >= 46,
        response.subrange(13, 45) == u32_bits(v),
        response[45] == xor_fold(u32_bits(v)),
    ensures
        dp_read_value(response) == Ok::<u32, DapError>(v),
{
    lemma_bits_round_trip(v);
    lemma_xor_fold_is_odd_count(u32_bits(v));
}

/// The engine from stack `s` answered with `responses` in turn: the
/// sequences it puts on the wire, the stack it ends in, and the result of
/// the operation if it completed.
pub open spec fn run(s: Seq<Frame>, idle: nat, responses: Seq<Seq<bool>>) -> (Seq<Seq<bool>>, Seq<
    Frame,
>, Option<Result<u32, DebugProbeError>>)
    decreases responses.len(),
{
    if responses.len() == 0 || s.len() == 0 {
        (Seq::empty(), s, None)
    } else {
        let sent = frame_io(s.last(), idle);
        let (t, r) = step_of(s, responses[0]);
        if r is Some {
            (seq![sent], t, r)
        } else {
            let (more, u, q) = run(t, idle, responses.drop_first());
            (seq![sent] + more, u, q)
        }
    }
}

/// A response whose acknowledgement is OK.
pub open spec fn acked(r: Seq<bool>) -> bool {
    r.len() >= 47 && r[10] && !r[11] && !r[12]
}

/// A response whose acknowledgement is WAIT.
pub open spec fn waited(r: Seq<bool>) -> bool {
    r.len() >= 47 && !r[10] && r[11] && !r[12]
}

/// A response with no acknowledgement: all three bits high.
pub open spec fn unacked(r: Seq<bool>) -> bool {
    r.len() >= 47 && r[10] && r[11] && r[12]
}

/// A line-reset response whose DPIDR read is acknowledged.
pub open spec fn reset_acked(r: Seq<bool>) -> bool {
    r.len() >= 81 && r[78] && !r[79] && !r[80]
}

/// The operation `op` on attempt `k`, with its request on the wire.
pub open spec fn on_attempt(op: RegisterOp, k: u8) -> Seq<Frame> {
    seq![Frame { op, attempt: k, stage: Stage::Transfer }]
}

/// The ABORT write that clears the sticky overrun flag.
pub open spec fn overrun_clear() -> RegisterOp {
    RegisterOp::Write(PortType::DebugPort, ABORT_ADDRESS, ABORT_ORUNERRCLR)
}

/// A WAIT on attempt `k` of `op`, with the overrun-clearing ABORT write that
/// follows acknowledged, puts the request and that ABORT write on the wire,
/// then goes on with attempt `k + 1`; on the last attempt it ends the
/// operation with a timeout instead.
pub proof fn lemma_wait_cycle(
    op: RegisterOp,
    k: u8,
    idle: nat,
    w: Seq<bool>,
    a: Seq<bool>,
    rest: Seq<Seq<bool>>,
)
    requires
        k < RETRY_LIMIT,
        waited(w),
        acked(a),
    ensures
        k + 1 < RETRY_LIMIT ==> run(on_attempt(op, k), idle, seq![w, a] + rest) == {
            let (more, u, q) = run(on_attempt(op, (k + 1) as u8), idle, rest);
            (seq![op_io(op, idle), op_io(overrun_clear(), idle)] + more, u, q)
        },
        k + 1 == RETRY_LIMIT ==> run(on_attempt(op, k), idle, seq![w, a] + rest) == (
            seq![op_io(op, idle), op_io(overrun_clear(), idle)],
            Seq::<Frame>::empty(),
            Some(Err::<u32, DebugProbeError>(DebugProbeError::Timeout)),
        ),
{
    let s = on_attempt(op, k);
    let rs = seq![w, a] + rest;
    assert(rs[0] == w);
    assert(rs.drop_first()[0] == a);
    assert(rs.drop_first().drop_first() =~= rest);
    let (t, r) = step_of(s, w);
    let pushed = with_stage(s, Stage::Abort).push(fresh(overrun_clear()));
    assert(t == pushed);
    assert(pushed.drop_last() =~= seq![Frame { op, attempt: k, stage: Stage::Abort }]);
    lemma_finish_error(pushed.drop_last(), DebugProbeError::Timeout);
    assert(next_attempt(pushed.drop_last()) =~= on_attempt(op, (k + 1) as u8));
    assert(run(s, idle, rs) == {
        let (more, u, q) = run(t, idle, rs.drop_first());
        (seq![op_io(op, idle)] + more, u, q)
    });
    if k + 1 < RETRY_LIMIT {
        let (more, u, q) = run(on_attempt(op, (k + 1) as u8), idle, rest);
        assert(run(t, idle, rs.drop_first()) == (seq![op_io(overrun_clear(), idle)] + more, u, q));
        assert(seq![op_io(op, idle)] + (seq![op_io(overrun_clear(), idle)] + more) =~= seq![
            op_io(op, idle),
            op_io(overrun_clear(), idle),
        ] + more);
    } else {
        assert(seq![op_io(op, idle)] + seq![op_io(overrun_clear(), idle)] =~= seq![
            op_io(op, idle),
            op_io(overrun_clear(), idle),
        ]);
    }
}

/// An acknowledged request of a Debug-Port read ends the operation with the
/// value of its response; an acknowledged write ends it with success.
pub proof fn lemma_final_ack(op: RegisterOp, k: u8, idle: nat, r: Seq<bool>, rest: Seq<Seq<bool>>)
    requires
        acked(r),
        on_debug_port(op),
    ensures
        run(on_attempt(op, k), idle, seq![r] + rest) == (
            seq![op_io(op, idle)],
            Seq::<Frame>::empty(),
            Some(
                match op {
                    RegisterOp::Read(_, _) => match dp_read_value(r) {
                        Ok(v) => Ok(v),
                        Err(e) => Err(DebugProbeError::Dap(e)),
                    },
                    RegisterOp::Write(_, _, v) => Ok::<u32, DebugProbeError>(v),
                },
            ),
        ),
{
    let rs = seq![r] + rest;
    assert(rs[0] == r);
}

/// A request answered WAIT, WAIT and then OK, with every overrun-clearing
/// ABORT write acknowledged: the engine puts the request on the wire three
/// times with exactly one ABORT write of ORUNERRCLR after each of the first
/// two, and returns the value of the third answer (for a write, success).
pub proof fn lemma_wait_wait_ok(
    op: RegisterOp,
    idle: nat,
    w1: Seq<bool>,
    a1: Seq<bool>,
    w2: Seq<bool>,
    a2: Seq<bool>,
    ok: Seq<bool>,
)
    requires
        on_debug_port(op) || op is Write,
        waited(w1),
        waited(w2),
        acked(a1),
        acked(a2),
        acked(ok),
    ensures
        run(on_attempt(op, 0), idle, seq![w1, a1, w2, a2, ok]) == (
            seq![
                op_io(op, idle),
                op_io(overrun_clear(), idle),
                op_io(op, idle),
                op_io(overrun_clear(), idle),
                op_io(op, idle),
            ],
            Seq::<Frame>::empty(),
            Some(
                match op {
                    RegisterOp::Read(_, _) => match dp_read_value(ok) {
                        Ok(v) => Ok(v),
                        Err(e) => Err(DebugProbeError::Dap(e)),
                    },
                    RegisterOp::Write(_, _, v) => Ok::<u32, DebugProbeError>(v),
                },
            ),
        ),
{
    let last = seq![ok];
    let mid = seq![w2, a2] + last;
    assert(seq![w1, a1, w2, a2, ok] =~= seq![w1, a1] + mid);
    lemma_wait_cycle(op, 0, idle, w1, a1, mid);
    lemma_wait_cycle(op, 1, idle, w2, a2, last);
    assert(last =~= seq![ok] + Seq::<Seq<bool>>::empty());
    if op is Write {
        let rs = seq![ok] + Seq::<Seq<bool>>::empty();
        assert(rs[0] == ok);
    } else {
        lemma_final_ack(op, 2, idle, ok, Seq::empty());
    }
    assert(seq![op_io(op, idle), op_io(overrun_clear(), idle)] + (seq![
        op_io(op, idle),
        op_io(overrun_clear(), idle),
    ] + seq![op_io(op, idle)]) =~= seq![
        op_io(op, idle),
        op_io(overrun_clear(), idle),
        op_io(op, idle),
        op_io(overrun_clear(), idle),
        op_io(op, idle),
    ]);
}

/// Five WAIT answers in a row, each overrun-clearing ABORT write
/// acknowledged, end the operation with a timeout after the fifth ABORT
/// write: the request goes on the wire five times and no sixth time.
pub proof fn lemma_five_waits(op: RegisterOp, idle: nat, rs: Seq<Seq<bool>>)
    requires
        rs.len() >= 10,
        forall|i: int| 0 <= i < 5 ==> waited(#[trigger] rs[2 * i]) && acked(rs[2 * i + 1]),
    ensures
        run(on_attempt(op, 0), idle, rs) == (
            seq![
                op_io(op, idle),
                op_io(overrun_clear(), idle),
                op_io(op, idle),
                op_io(overrun_clear(), idle),
                op_io(op, idle),
                op_io(overrun_clear(), idle),
                op_io(op, idle),
                op_io(overrun_clear(), idle),
                op_io(op, idle),
                op_io(overrun_clear(), idle),
            ],
            Seq::<Frame>::empty(),
            Some(Err::<u32, DebugProbeError>(DebugProbeError::Timeout)),
        ),
{
    let pair = seq![op_io(op, idle), op_io(overrun_clear(), idle)];
    let r4 = rs.subrange(8, rs.len() as int);
    let r3 = rs.subrange(6, rs.len() as int);
    let r2 = rs.subrange(4, rs.len() as int);
    let r1 = rs.subrange(2, rs.len() as int);
    let r0 = rs;
    assert(waited(rs[8]) && acked(rs[9])) by {
        let j: int = 4;
        assert(rs[2 * j] == rs[8] && rs[2 * j + 1] == rs[9]);
    }
    assert(waited(rs[6]) && acked(rs[7])) by {
        let j: int = 3;
        assert(rs[2 * j] == rs[6] && rs[2 * j + 1] == rs[7]);
    }
    assert(waited(rs[4]) && acked(rs[5])) by {
        let j: int = 2;
        assert(rs[2 * j] == rs[4] && rs[2 * j + 1] == rs[5]);
    }
    assert(waited(rs[2]) && acked(rs[3])) by {
        let j: int = 1;
        assert(rs[2 * j] == rs[2] && rs[2 * j + 1] == rs[3]);
    }
    assert(waited(rs[0]) && acked(rs[1])) by {
        let j: int = 0;
        assert(rs[2 * j] == rs[0] && rs[2 * j + 1] == rs[1]);
    }
    let tail = rs.subrange(10, rs.len() as int);
    assert(r4 =~= seq![rs[8], rs[9]] + tail);
    assert(r3 =~= seq![rs[6], rs[7]] + r4);
    assert(r2 =~= seq![rs[4], rs[5]] + r3);
    assert(r1 =~= seq![rs[2], rs[3]] + r2);
    assert(r0 =~= seq![rs[0], rs[1]] + r1);
    lemma_wait_cycle(op, 4, idle, rs[8], rs[9], tail);
    lemma_wait_cycle(op, 3, idle, rs[6], rs[7], r4);
    lemma_wait_cycle(op, 2, idle, rs[4], rs[5], r3);
    lemma_wait_cycle(op, 1, idle, rs[2], rs[3], r2);
    lemma_wait_cycle(op, 0, idle, rs[0], rs[1], r1);
    assert(pair + (pair + (pair + (pair + pair))) =~= seq![
        op_io(op, idle),
        op_io(overrun_clear(), idle),
        op_io(op, idle),
        op_io(overrun_clear(), idle),
        op_io(op, idle),
        op_io(overrun_clear(), idle),
        op_io(op, idle),
        op_io(overrun_clear(), idle),
        op_io(op, idle),
        op_io(overrun_clear(), idle),
    ]);
}

/// A request answered with no acknowledgement on attempt `k` is followed on
/// the wire by a line reset, with no ABORT write and no CTRL/STAT read; once
/// the line reset is acknowledged the same request is sent again, on
/// attempt `k + 1`.
pub proof fn lemma_no_ack_trace(
    op: RegisterOp,
    k: u8,
    idle: nat,
    n: Seq<bool>,
    l: Seq<bool>,
    rest: Seq<Seq<bool>>,
)
    requires
        k + 1 < RETRY_LIMIT,
        unacked(n),
        reset_acked(l),
    ensures
        run(on_attempt(op, k), idle, seq![n, l] + rest) == {
            let (more, u, q) = run(on_attempt(op, (k + 1) as u8), idle, rest);
            (seq![op_io(op, idle), line_reset_io()] + more, u, q)
        },
{
    let s = on_attempt(op, k);
    let rs = seq![n, l] + rest;
    assert(rs[0] == n);
    assert(rs.drop_first()[0] == l);
    assert(rs.drop_first().drop_first() =~= rest);
    let t = with_stage(s, Stage::LineReset(0));
    assert(step_of(s, n) == (t, None::<Result<u32, DebugProbeError>>));
    assert(next_attempt(t) =~= on_attempt(op, (k + 1) as u8));
    assert(step_of(t, l) == (on_attempt(op, (k + 1) as u8), None::<
        Result<u32, DebugProbeError>,
    >));
    assert(frame_io(t.last(), idle) == line_reset_io());
    let (more, u, q) = run(on_attempt(op, (k + 1) as u8), idle, rest);
    assert(run(t, idle, rs.drop_first()) == (seq![line_reset_io()] + more, u, q));
    assert(run(s, idle, rs) == {
        let (m2, u2, q2) = run(t, idle, rs.drop_first());
        (seq![op_io(op, idle)] + m2, u2, q2)
    });
    assert(seq![op_io(op, idle)] + (seq![line_reset_io()] + more) =~= seq![
        op_io(op, idle),
        line_reset_io(),
    ] + more);
}

/// An Access-Port read that is acknowledged, whatever data came with it, is
/// followed by exactly one Debug-Port read of RDBUFF, and the operation's
/// result is the result of that read.
pub proof fn lemma_ap_read_trace(
    port: u16,
    address: u16,
    idle: nat,
    first: Seq<bool>,
    rdbuff: Seq<bool>,
)
    requires
        acked(first),
        acked(rdbuff),
    ensures
        run(on_attempt(RegisterOp::Read(PortType::AccessPort(port), address), 0), idle, seq![
            first,
            rdbuff,
        ]) == (
            seq![
                op_io(RegisterOp::Read(PortType::AccessPort(port), address), idle),
                op_io(RegisterOp::Read(PortType::DebugPort, RDBUFF_ADDRESS), idle),
            ],
            Seq::<Frame>::empty(),
            Some(
                match dp_read_value(rdbuff) {
                    Ok(v) => Ok(v),
                    Err(e) => Err(DebugProbeError::Dap(e)),
                },
            ),
        ),
{
    let op = RegisterOp::Read(PortType::AccessPort(port), address);
    let s = on_attempt(op, 0);
    let rs = seq![first, rdbuff];
    assert(rs[0] == first);
    assert(rs.drop_first() =~= seq![rdbuff]);
    let t = with_stage(s, Stage::RdBuff).push(
        fresh(RegisterOp::Read(PortType::DebugPort, RDBUFF_ADDRESS)),
    );
    assert(step_of(s, first) == (t, None::<Result<u32, DebugProbeError>>));
    assert(t.last() == fresh(RegisterOp::Read(PortType::DebugPort, RDBUFF_ADDRESS)));
    let res = match dp_read_value(rdbuff) {
        Ok(v) => Ok(v),
        Err(e) => Err(DebugProbeError::Dap(e)),
    };
    assert(t.drop_last().len() == 1);
    assert(t.drop_last().last().stage is RdBuff);
    assert(finish(t.drop_last(), res) == (Seq::<Frame>::empty(), Some(res)));
    assert(finish(t, res) == (Seq::<Frame>::empty(), Some(res)));
    assert(step_of(t, rdbuff) == (Seq::<Frame>::empty(), Some(res)));
    assert(seq![rdbuff][0] == rdbuff);
    assert(frame_io(t.last(), idle) == op_io(
        RegisterOp::Read(PortType::DebugPort, RDBUFF_ADDRESS),
        idle,
    ));
    assert(run(t, idle, rs.drop_first()) == (
        seq![op_io(RegisterOp::Read(PortType::DebugPort, RDBUFF_ADDRESS), idle)],
        Seq::<Frame>::empty(),
        Some(res),
    ));
    assert(run(s, idle, rs) == {
        let (m2, u2, q2) = run(t, idle, rs.drop_first());
        (seq![op_io(op, idle)] + m2, u2, q2)
    });
    assert(seq![op_io(op, idle)] + seq![
        op_io(RegisterOp::Read(PortType::DebugPort, RDBUFF_ADDRESS), idle),
    ] =~= seq![
        op_io(op, idle),
        op_io(RegisterOp::Read(PortType::DebugPort, RDBUFF_ADDRESS), idle),
    ]);
}

} // verus!
