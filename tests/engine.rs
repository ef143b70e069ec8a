use probe_rs::codec::PortType;
use probe_rs::engine::{
    DapEngine, RegisterOp, ABORT_ADDRESS, ABORT_ORUNERRCLR, ABORT_STKERRCLR, CTRL_ADDRESS,
    MIN_WRITE_IDLE_CYCLES, RDBUFF_ADDRESS,
};
use probe_rs::error::{DapError, DebugProbeError};

const OK: [bool; 3] = [true, false, false];
const WAIT: [bool; 3] = [false, true, false];
const FAULT: [bool; 3] = [false, false, true];
const NOACK: [bool; 3] = [true, true, true];

/// What a sequence put on the wire asks for.
#[derive(Debug, Clone, PartialEq)]
enum Wire {
    LineReset,
    Read { ap: bool, address: u16 },
    Write { ap: bool, address: u16, value: u32 },
}

fn decode(io: &[bool]) -> Wire {
    if io.len() == 115 && io[..50].iter().all(|b| *b) {
        return Wire::LineReset;
    }
    let ap = io[3];
    let read = io[4];
    let address = ((io[5] as u16) << 2) | ((io[6] as u16) << 3);
    if read {
        Wire::Read { ap, address }
    } else {
        let mut value = 0u32;
        for i in 0..32 {
            if io[15 + i] {
                value |= 1 << i;
            }
        }
        Wire::Write { ap, address, value }
    }
}

/// A sampled response of `len` bits with acknowledgement `ack` at `at`, and
/// for reads a value with its parity.
fn response(len: usize, at: usize, ack: [bool; 3], value: Option<u32>) -> Vec<bool> {
    let mut r = vec![false; len];
    r[at..at + 3].copy_from_slice(&ack);
    if let Some(v) = value {
        for i in 0..32 {
            r[13 + i] = (v >> i) & 1 == 1;
        }
        r[45] = v.count_ones() % 2 == 1;
    }
    r
}

/// Runs `op`, answering each sequence with `answer`, and returns the result
/// with everything that went on the wire.
fn run(
    op: RegisterOp,
    mut answer: impl FnMut(&Wire, usize) -> Vec<bool>,
) -> (Result<u32, DebugProbeError>, Vec<Wire>) {
    let mut engine = DapEngine::new(op, MIN_WRITE_IDLE_CYCLES);
    let mut wire = Vec::new();
    for _ in 0..100 {
        let (io, dir) = engine.transfer();
        assert_eq!(io.len(), dir.len());
        let w = decode(&io);
        wire.push(w.clone());
        let r = answer(&w, io.len());
        assert_eq!(r.len(), io.len());
        if let Some(result) = engine.step(&r) {
            assert!(engine.is_done());
            return (result, wire);
        }
    }
    panic!("the engine did not finish");
}

fn count(wire: &[Wire], w: &Wire) -> usize {
    wire.iter().filter(|x| *x == w).count()
}

#[test]
fn wait_wait_ok_clears_overrun_twice() {
    let target = Wire::Read { ap: false, address: CTRL_ADDRESS };
    let mut acks = vec![WAIT, WAIT, OK].into_iter();
    let (result, wire) = run(RegisterOp::Read(PortType::DebugPort, CTRL_ADDRESS), |w, len| {
        if *w == target {
            response(len, 10, acks.next().unwrap(), Some(0x1234_5678))
        } else {
            response(len, 10, OK, None)
        }
    });
    assert_eq!(result, Ok(0x1234_5678));
    let abort = Wire::Write { ap: false, address: ABORT_ADDRESS, value: ABORT_ORUNERRCLR };
    assert_eq!(count(&wire, &abort), 2);
    assert_eq!(count(&wire, &target), 3);
    assert_eq!(wire.len(), 5);
}

#[test]
fn five_waits_time_out_without_sixth_attempt() {
    let target = Wire::Write { ap: true, address: 0x4, value: 0xdead_beef };
    let (result, wire) =
        run(RegisterOp::Write(PortType::AccessPort(0), 0x4, 0xdead_beef), |w, len| {
            if *w == target {
                response(len, 10, WAIT, None)
            } else {
                response(len, 10, OK, None)
            }
        });
    assert_eq!(result, Err(DebugProbeError::Timeout));
    assert_eq!(count(&wire, &target), 5);
    let abort = Wire::Write { ap: false, address: ABORT_ADDRESS, value: ABORT_ORUNERRCLR };
    assert_eq!(count(&wire, &abort), 5);
}

#[test]
fn no_ack_line_resets_before_retry() {
    let target = Wire::Read { ap: false, address: 0x0 };
    let mut acks = vec![NOACK, OK].into_iter();
    let (result, wire) = run(RegisterOp::Read(PortType::DebugPort, 0x0), |w, len| match w {
        Wire::LineReset => response(len, 78, OK, None),
        _ => response(len, 10, acks.next().unwrap(), Some(0x2ba0_1477)),
    });
    assert_eq!(result, Ok(0x2ba0_1477));
    assert_eq!(wire, vec![target.clone(), Wire::LineReset, target]);
}

#[test]
fn line_reset_failing_twice_reports_its_ack() {
    let (result, wire) = run(RegisterOp::Read(PortType::DebugPort, 0x0), |w, len| match w {
        Wire::LineReset => response(len, 78, FAULT, None),
        _ => response(len, 10, NOACK, None),
    });
    assert_eq!(result, Err(DebugProbeError::Dap(DapError::FaultResponse)));
    assert_eq!(count(&wire, &Wire::LineReset), 2);
}

#[test]
fn access_port_read_returns_rdbuff_value() {
    let rdbuff = Wire::Read { ap: false, address: RDBUFF_ADDRESS };
    let (result, wire) = run(RegisterOp::Read(PortType::AccessPort(1), 0xc), |w, len| {
        if *w == rdbuff {
            response(len, 10, OK, Some(0xcafe_f00d))
        } else {
            response(len, 10, OK, Some(0x1111_1111))
        }
    });
    assert_eq!(result, Ok(0xcafe_f00d));
    assert_eq!(wire, vec![Wire::Read { ap: true, address: 0xc }, rdbuff]);
}

#[test]
fn fault_with_sticky_flags_is_cleared_and_retried() {
    let target = Wire::Write { ap: false, address: 0x8, value: 7 };
    let ctrl = Wire::Read { ap: false, address: CTRL_ADDRESS };
    let mut acks = vec![FAULT, OK].into_iter();
    let (result, wire) = run(RegisterOp::Write(PortType::DebugPort, 0x8, 7), |w, len| {
        if *w == target {
            response(len, 10, acks.next().unwrap(), None)
        } else if *w == ctrl {
            response(len, 10, OK, Some(0x22))
        } else {
            response(len, 10, OK, None)
        }
    });
    assert_eq!(result, Ok(7));
    let abort = Wire::Write {
        ap: false,
        address: ABORT_ADDRESS,
        value: ABORT_ORUNERRCLR | ABORT_STKERRCLR,
    };
    assert_eq!(wire, vec![target.clone(), ctrl, abort, target]);
}

#[test]
fn fault_without_sticky_flags_is_reported() {
    let target = Wire::Read { ap: false, address: 0x8 };
    let (result, wire) = run(RegisterOp::Read(PortType::DebugPort, 0x8), |w, len| {
        if *w == target {
            response(len, 10, FAULT, None)
        } else {
            response(len, 10, OK, Some(0x0))
        }
    });
    assert_eq!(result, Err(DebugProbeError::Dap(DapError::FaultResponse)));
    assert_eq!(wire.len(), 2);
}

#[test]
fn parity_mismatch_is_not_retried() {
    let (result, wire) = run(RegisterOp::Read(PortType::DebugPort, 0x4), |_, len| {
        let mut r = response(len, 10, OK, Some(0x3));
        r[45] = !r[45];
        r
    });
    assert_eq!(result, Err(DebugProbeError::Dap(DapError::IncorrectParity)));
    assert_eq!(wire.len(), 1);
}

#[test]
fn write_transfer_ends_with_idle_cycles() {
    let engine = DapEngine::new(RegisterOp::Write(PortType::DebugPort, 0x8, 1), 8);
    let (io, dir) = engine.transfer();
    assert_eq!(io.len(), 56);
    assert!(io[48..].iter().all(|b| !*b));
    assert!(dir[48..].iter().all(|b| *b));
    let longer = DapEngine::new(RegisterOp::Write(PortType::DebugPort, 0x8, 1), 20);
    let (io, dir) = longer.transfer();
    assert_eq!(io.len(), 68);
    assert!(io[48..].iter().all(|b| !*b));
    assert!(dir[48..].iter().all(|b| *b));
}

#[test]
fn fault_everywhere_ends_after_nested_ctrl_stat() {
    let target = Wire::Read { ap: false, address: 0x8 };
    let ctrl = Wire::Read { ap: false, address: CTRL_ADDRESS };
    let (result, wire) = run(RegisterOp::Read(PortType::DebugPort, 0x8), |_, len| {
        response(len, 10, FAULT, None)
    });
    assert_eq!(result, Err(DebugProbeError::Dap(DapError::FaultResponse)));
    assert_eq!(wire, vec![target, ctrl.clone(), ctrl]);
}

#[test]
fn wait_everywhere_ends_after_nested_abort() {
    let (result, wire) = run(RegisterOp::Write(PortType::AccessPort(0), 0x0, 5), |_, len| {
        response(len, 10, WAIT, None)
    });
    assert_eq!(result, Err(DebugProbeError::Dap(DapError::WaitResponse)));
    let abort = Wire::Write { ap: false, address: ABORT_ADDRESS, value: ABORT_ORUNERRCLR };
    assert_eq!(wire, vec![Wire::Write { ap: true, address: 0x0, value: 5 }, abort.clone(), abort]);
}

#[test]
fn wait_on_rdbuff_read_is_recovered() {
    let rdbuff = Wire::Read { ap: false, address: RDBUFF_ADDRESS };
    let abort = Wire::Write { ap: false, address: ABORT_ADDRESS, value: ABORT_ORUNERRCLR };
    let mut rdbuff_acks = vec![WAIT, OK].into_iter();
    let (result, wire) = run(RegisterOp::Read(PortType::AccessPort(2), 0x4), |w, len| {
        if *w == rdbuff {
            response(len, 10, rdbuff_acks.next().unwrap(), Some(0x600d_cafe))
        } else {
            response(len, 10, OK, Some(0x1))
        }
    });
    assert_eq!(result, Ok(0x600d_cafe));
    assert_eq!(
        wire,
        vec![Wire::Read { ap: true, address: 0x4 }, rdbuff.clone(), abort, rdbuff]
    );
}

#[test]
fn no_ack_on_rdbuff_read_is_recovered_by_line_reset() {
    let rdbuff = Wire::Read { ap: false, address: RDBUFF_ADDRESS };
    let mut rdbuff_acks = vec![NOACK, OK].into_iter();
    let (result, wire) = run(RegisterOp::Read(PortType::AccessPort(2), 0x4), |w, len| {
        if *w == rdbuff {
            response(len, 10, rdbuff_acks.next().unwrap(), Some(0x77))
        } else if *w == Wire::LineReset {
            response(len, 78, OK, None)
        } else {
            response(len, 10, OK, None)
        }
    });
    assert_eq!(result, Ok(0x77));
    assert_eq!(
        wire,
        vec![Wire::Read { ap: true, address: 0x4 }, rdbuff.clone(), Wire::LineReset, rdbuff]
    );
}

#[test]
fn fault_on_ctrl_stat_read_is_recovered() {
    let target = Wire::Read { ap: false, address: 0x8 };
    let ctrl = Wire::Read { ap: false, address: CTRL_ADDRESS };
    let mut target_acks = vec![FAULT, OK].into_iter();
    let mut ctrl_acks = vec![FAULT, OK, OK].into_iter();
    let (result, wire) = run(RegisterOp::Read(PortType::DebugPort, 0x8), |w, len| {
        if *w == target {
            response(len, 10, target_acks.next().unwrap(), Some(9))
        } else if *w == ctrl {
            response(len, 10, ctrl_acks.next().unwrap(), Some(0x2))
        } else {
            response(len, 10, OK, None)
        }
    });
    assert_eq!(result, Ok(9));
    let abort = Wire::Write { ap: false, address: ABORT_ADDRESS, value: ABORT_ORUNERRCLR };
    // The FAULT on the CTRL/STAT read is inspected with a second CTRL/STAT
    // read and cleared, then the first CTRL/STAT read is tried again.
    assert_eq!(
        wire,
        vec![
            target.clone(),
            ctrl.clone(),
            ctrl.clone(),
            abort.clone(),
            ctrl,
            abort,
            target
        ]
    );
}

#[test]
fn no_ack_every_time_is_bounded() {
    let (result, wire) = run(RegisterOp::Read(PortType::DebugPort, 0x4), |w, len| match w {
        Wire::LineReset => response(len, 78, OK, None),
        _ => response(len, 10, NOACK, None),
    });
    assert_eq!(result, Err(DebugProbeError::Timeout));
    assert_eq!(count(&wire, &Wire::LineReset), 5);
    assert_eq!(wire.len(), 10);
}

#[test]
fn register_entry_points_start_the_operation() {
    let read = DapEngine::read_register(PortType::AccessPort(1), 0xc, MIN_WRITE_IDLE_CYCLES);
    let same = DapEngine::new(RegisterOp::Read(PortType::AccessPort(1), 0xc), MIN_WRITE_IDLE_CYCLES);
    assert_eq!(read.transfer(), same.transfer());
    let write = DapEngine::write_register(PortType::DebugPort, 0x8, 0x55, 10);
    let (io, _) = write.transfer();
    assert_eq!(decode(&io), Wire::Write { ap: false, address: 0x8, value: 0x55 });
    assert_eq!(io.len(), 58);
}
