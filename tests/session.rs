use probe_rs::error::{DebugProbeError, NotImplementedKind, WireProtocol};
use probe_rs::jtag::{dr_read_sequence, dr_response_bytes, dr_write_sequence, ir_write_sequence};
use probe_rs::probe::{
    jtag_reset_sequence, select_interface, select_probe, speed_for, supported_protocols, swj_bits,
    swj_pin_writes, ProbeCandidate, ProbeSelector, ProbeState, IR_UNKNOWN,
};
use probe_rs::session::{
    attach_plan, get_target_from_selector, AttachMethod, AttachProgress, AttachStep, ChipInfo,
    CoreAccess, Session, SessionError, StepProgress, TargetLookup, HALT_TIMEOUT_MS,
};
use probe_rs::target::{
    default_source, Architecture, CoreType, DebugSequence, Target, TargetDescriptionSource,
    TargetSelector,
};

fn arm_target() -> Target {
    Target::new("nRF52832_xxAA".to_string(), CoreType::M4, TargetDescriptionSource::BuiltIn)
}

/// Runs the attach protocol of `target`, failing the step at `fail` if one
/// is given; returns the outcome and the steps performed.
fn attach(
    target: Target,
    method: AttachMethod,
    fail: Option<(AttachStep, DebugProbeError)>,
) -> (Result<Session, SessionError>, Vec<AttachStep>) {
    let mut run = Session::new(target, method);
    let mut performed = Vec::new();
    loop {
        let step = run.next_step();
        performed.push(step);
        let outcome = match fail {
            Some((s, e)) if s == step => Err(e),
            _ => Ok(()),
        };
        match run.report(outcome) {
            AttachProgress::Next(next) => run = next,
            AttachProgress::Done(result) => return (result, performed),
        }
    }
}

fn attached(target: Target) -> Session {
    match attach(target, AttachMethod::Normal, None) {
        (Ok(s), _) => s,
        _ => panic!("the attach did not complete"),
    }
}

#[test]
fn core_type_architectures() {
    assert_eq!(CoreType::M0.architecture(), Architecture::Arm);
    assert_eq!(CoreType::M33.architecture(), Architecture::Arm);
    assert_eq!(CoreType::Riscv.architecture(), Architecture::Riscv);
    assert_eq!(default_source(), TargetDescriptionSource::External);
}

#[test]
fn target_picks_sequence_by_architecture() {
    let t = arm_target();
    assert_eq!(t.architecture(), Architecture::Arm);
    assert_eq!(t.debug_sequence, DebugSequence::Arm);
    assert_eq!(*t.source(), TargetDescriptionSource::BuiltIn);
    let r = Target::new("esp32c3".to_string(), CoreType::Riscv, TargetDescriptionSource::Generic);
    assert_eq!(r.debug_sequence, DebugSequence::Riscv);
    assert_eq!(r.name, "esp32c3");
}

#[test]
fn core_zero_twice_attaches_once() {
    let mut s = attached(arm_target());
    assert_eq!(s.core_handle(0), Ok(CoreAccess::Ready(0)));
    assert_eq!(s.core_handle(0), Ok(CoreAccess::Ready(0)));
    assert_eq!(s.core_handle(1), Err(SessionError::CoreNotFound(1)));
    assert_eq!(s.list_cores(), vec![(0, CoreType::M4)]);
    assert_eq!(s.architecture(), Architecture::Arm);
    assert_eq!(s.require_arm(), Ok(()));
    assert_eq!(s.target().name, "nRF52832_xxAA");
    let clear = s.clear_all_hw_breakpoints();
    assert_eq!(clear.next_step(), AttachStep::ClearHwBreakpoints(0));
    assert!(matches!(clear.report(Ok(())), StepProgress::Finished));
    let clear = s.clear_all_hw_breakpoints();
    assert!(matches!(
        clear.report(Err(DebugProbeError::Timeout)),
        StepProgress::Failed(DebugProbeError::Timeout)
    ));
}

#[test]
fn riscv_session_refuses_arm_operations() {
    let t = Target::new("fe310".to_string(), CoreType::Riscv, TargetDescriptionSource::BuiltIn);
    let s = attached(t);
    assert_eq!(s.require_arm(), Err(SessionError::ArchitectureRequired));
}

#[test]
fn under_reset_plan_orders_reset_catch() {
    let plan = attach_plan(Architecture::Arm, AttachMethod::UnderReset, 1);
    assert_eq!(
        plan,
        vec![
            AttachStep::DebugPortSetup,
            AttachStep::InitializeArmInterface,
            AttachStep::DebugCoreStart,
            AttachStep::ResetCatchSet,
            AttachStep::ResetDeassert,
            AttachStep::WaitForCoreHalted(HALT_TIMEOUT_MS),
            AttachStep::ResetCatchClear,
            AttachStep::ClearHwBreakpoints(0),
        ]
    );
    let set = plan.iter().position(|s| *s == AttachStep::ResetCatchSet).unwrap();
    let deassert = plan.iter().position(|s| *s == AttachStep::ResetDeassert).unwrap();
    let halted = plan.iter().position(|s| matches!(s, AttachStep::WaitForCoreHalted(_))).unwrap();
    let clear = plan.iter().position(|s| *s == AttachStep::ResetCatchClear).unwrap();
    assert!(set < deassert && halted < clear);
}

#[test]
fn normal_and_riscv_plans() {
    assert_eq!(
        attach_plan(Architecture::Arm, AttachMethod::Normal, 2),
        vec![
            AttachStep::DebugPortSetup,
            AttachStep::InitializeArmInterface,
            AttachStep::DebugCoreStart,
            AttachStep::ClearHwBreakpoints(0),
            AttachStep::ClearHwBreakpoints(1),
        ]
    );
    assert_eq!(
        attach_plan(Architecture::Riscv, AttachMethod::UnderReset, 1),
        vec![
            AttachStep::CreateRiscvInterface,
            AttachStep::HaltCore(100),
            AttachStep::ClearHwBreakpoints(0),
        ]
    );
}

#[test]
fn selector_lookup() {
    match get_target_from_selector(TargetSelector::Unspecified("stm32f103".to_string()), None) {
        Ok(TargetLookup::ByName(n)) => assert_eq!(n, "stm32f103"),
        _ => panic!("expected a lookup by name"),
    }
    match get_target_from_selector(TargetSelector::Specified(arm_target()), None) {
        Ok(TargetLookup::Given(t)) => assert_eq!(t.name, "nRF52832_xxAA"),
        _ => panic!("expected the given target"),
    }
    let chip = ChipInfo { manufacturer_id: 0x44, manufacturer_cc: 1, part: 6 };
    match get_target_from_selector(TargetSelector::Auto, Some(chip)) {
        Ok(TargetLookup::ByChip(c)) => assert_eq!(c, chip),
        _ => panic!("expected a lookup by chip"),
    }
    assert!(matches!(
        get_target_from_selector(TargetSelector::Auto, None),
        Err(SessionError::ChipNotFound)
    ));
}

#[test]
fn interface_selection() {
    let both = [WireProtocol::Swd, WireProtocol::Jtag];
    assert_eq!(select_interface(true, WireProtocol::Swd, &both), Ok(WireProtocol::Swd));
    assert_eq!(
        select_interface(true, WireProtocol::Swd, &[WireProtocol::Jtag]),
        Err(DebugProbeError::UnsupportedProtocol(WireProtocol::Swd))
    );
    assert_eq!(select_interface(false, WireProtocol::Jtag, &[]), Ok(WireProtocol::Jtag));
    assert_eq!(
        select_interface(false, WireProtocol::Swd, &both),
        Err(DebugProbeError::UnsupportedProtocol(WireProtocol::Swd))
    );
    assert_eq!(
        supported_protocols(true, &[Some(WireProtocol::Jtag), None, Some(WireProtocol::Swd)]),
        vec![WireProtocol::Jtag, WireProtocol::Swd]
    );
    assert_eq!(supported_protocols(false, &[Some(WireProtocol::Swd)]), vec![WireProtocol::Jtag]);
}

#[test]
fn probe_state_protocol_and_ir_cache() {
    let mut p = ProbeState::new(vec![WireProtocol::Jtag, WireProtocol::Swd]);
    assert_eq!(p.attach_protocol(), WireProtocol::Swd);
    assert!(p.has_arm_interface() && p.has_riscv_interface());
    assert_eq!(p.ir_write_needed(1), Ok(false));
    assert_eq!(p.ir_write_needed(3), Ok(true));
    assert_eq!(
        p.ir_write_needed(0x20),
        Err(DebugProbeError::NotImplemented(NotImplementedKind::WideRegisterAddress))
    );
    assert_eq!(p.ir_written(&[3], 5), Ok(()));
    assert_eq!(p.ir_write_needed(3), Ok(false));
    assert_eq!(
        p.ir_written(&[4, 0], 9),
        Err(DebugProbeError::NotImplemented(NotImplementedKind::WideInstructionRegister))
    );
    assert_eq!(p.current_ir_reg, 3);
    assert_eq!(p.ir_written(&[0xab], 8), Ok(()));
    assert_eq!(p.current_ir_reg, 0xab);
    assert_eq!(p.ir_written(&[0x1], 0), Err(DebugProbeError::InvalidBitLength));
    assert_eq!(p.ir_written(&[0x1], 9), Err(DebugProbeError::InvalidBitLength));
    assert_eq!(p.ir_written(&[], 1), Err(DebugProbeError::InvalidBitLength));
    assert_eq!(p.current_ir_reg, 0xab);
    assert_eq!(
        p.protocol_selected(WireProtocol::Swd, WireProtocol::Jtag),
        Err(DebugProbeError::UnsupportedProtocol(WireProtocol::Swd))
    );
    assert_eq!(p.protocol, Some(WireProtocol::Jtag));
    assert_eq!(p.current_ir_reg, IR_UNKNOWN);
    assert_eq!(p.attach_protocol(), WireProtocol::Jtag);
    p.set_idle_cycles(4);
    assert_eq!(p.jtag_idle_cycles, 4);
    let only_jtag = ProbeState::new(vec![WireProtocol::Jtag]);
    assert_eq!(only_jtag.attach_protocol(), WireProtocol::Jtag);
    assert!(!only_jtag.has_arm_interface());
}

#[test]
fn speed_selection() {
    assert_eq!(speed_for(0, None), Err(DebugProbeError::UnsupportedSpeed(0)));
    assert_eq!(speed_for(0xffff, None), Err(DebugProbeError::UnsupportedSpeed(0xffff)));
    assert_eq!(speed_for(4000, None), Ok(4000));
    // 60 MHz base, divider 15 gives exactly 4 MHz.
    assert_eq!(speed_for(4000, Some((60_000_000, 4))), Ok(4000));
    // 60 MHz / ceil(60/7) = 60/9 MHz, rounded up to 6667 kHz.
    assert_eq!(speed_for(7000, Some((60_000_000, 4))), Ok(6667));
    // The minimal divider caps the speed at 15 MHz.
    assert_eq!(speed_for(30000, Some((60_000_000, 4))), Ok(15000));
    assert_eq!(speed_for(100, Some((0, 0))), Err(DebugProbeError::UnsupportedSpeed(100)));
    let mut p = ProbeState::new(vec![WireProtocol::Swd]);
    assert_eq!(p.set_speed(7000, Some((60_000_000, 4))), Ok(6667));
    assert_eq!(p.speed_khz, 6667);
    assert!(p.set_speed(0, None).is_err());
    assert_eq!(p.speed_khz, 6667);
}

#[test]
fn swj_and_pins() {
    assert_eq!(swj_bits(5, 0b10110), vec![false, true, true, false, true]);
    let long = swj_bits(66, u64::MAX);
    assert_eq!(long.len(), 66);
    assert!(long[..64].iter().all(|b| *b) && !long[64] && !long[65]);
    let pins = swj_pin_writes(0x80, 0x82);
    assert_eq!(pins.tms, Some(false));
    assert_eq!(pins.reset, Some(true));
    assert_eq!(pins.tdi, None);
    assert_eq!(pins.trst, None);
}

#[test]
fn init_sequences() {
    let (tms, tdi) = jtag_reset_sequence();
    assert_eq!(tms, vec![true, true, true, true, true, false]);
    assert_eq!(tdi, vec![false; 6]);
}

#[test]
fn jtag_ir_write_shape() {
    let (tms, tdi) = ir_write_sequence(&[0x11], 5).unwrap();
    assert_eq!(tms, vec![true, true, false, false, false, false, false, false, true, true, false]);
    assert_eq!(tdi, vec![false, false, false, false, true, false, false, false, true, false, false]);
}

#[test]
fn jtag_dr_shapes() {
    let (tms, tdi) = dr_write_sequence(&[0xff, 0x01], 9, 2).unwrap();
    assert_eq!(tms.len(), 9 + 5 + 2);
    assert_eq!(tdi.len(), tms.len());
    assert!(tdi[3..12].iter().all(|b| *b));
    assert!(!tdi[12]);
    let (rtms, rtdi) = dr_read_sequence(32, 0);
    assert_eq!(rtms.len(), 37);
    assert!(rtdi.iter().all(|b| !*b) && rtdi.len() == 37);
    assert_eq!(&rtms[..3], &[true, false, false]);
    assert_eq!(&rtms[34..], &[true, true, false]);
}

#[test]
fn jtag_response_unpacking() {
    // Three bits of entering Shift-DR, then 0x477 over 12 bits, low bit first.
    let mut response = vec![true, true, true];
    for i in 0..12 {
        response.push((0x477u32 >> i) & 1 == 1);
    }
    response.extend_from_slice(&[false; 5]);
    assert_eq!(dr_response_bytes(&response, 12), vec![0x77, 0x04]);
    assert_eq!(dr_response_bytes(&response, 8), vec![0x77]);
}

#[test]
fn selector_conversions() {
    assert!(matches!(TargetSelector::from("nrf51".to_string()), TargetSelector::Unspecified(n) if n == "nrf51"));
    assert!(matches!(TargetSelector::from(()), TargetSelector::Auto));
    assert!(matches!(TargetSelector::from(arm_target()), TargetSelector::Specified(t) if t.core_type == CoreType::M4));
}

#[test]
fn probe_selection() {
    let c = |v: u16, p: u16, s: Option<&str>| ProbeCandidate {
        vendor_id: v,
        product_id: p,
        serial_number: s.map(|x| x.as_bytes().to_vec()),
    };
    let devices = vec![
        c(0x1366, 0x0101, Some("000123")),
        c(0x0483, 0x3748, Some("ST1")),
        c(0x1366, 0x0101, Some("000456")),
        c(0x1366, 0x0101, None),
    ];
    let by_serial = ProbeSelector {
        vendor_id: 0x1366,
        product_id: 0x0101,
        serial_number: Some(b"000123".to_vec()),
    };
    assert_eq!(select_probe(&by_serial, &devices), Ok(0));
    let by_ids = ProbeSelector { vendor_id: 0x1366, product_id: 0x0101, serial_number: None };
    assert_eq!(select_probe(&by_ids, &devices), Ok(3));
    let missing = ProbeSelector {
        vendor_id: 0x1366,
        product_id: 0x0101,
        serial_number: Some(b"999".to_vec()),
    };
    assert_eq!(select_probe(&missing, &devices), Err(DebugProbeError::ProbeNotFound));
    assert_eq!(select_probe(&by_ids, &vec![]), Err(DebugProbeError::ProbeNotFound));
}

#[test]
fn attach_under_reset_runs_every_step() {
    let (result, performed) = attach(arm_target(), AttachMethod::UnderReset, None);
    assert!(result.is_ok());
    assert_eq!(performed, attach_plan(Architecture::Arm, AttachMethod::UnderReset, 1));
}

#[test]
fn halt_timeout_under_reset_ends_the_attach() {
    let halt = AttachStep::WaitForCoreHalted(HALT_TIMEOUT_MS);
    let (result, performed) =
        attach(arm_target(), AttachMethod::UnderReset, Some((halt, DebugProbeError::Timeout)));
    assert!(matches!(
        result,
        Err(SessionError::AttachFailed(AttachStep::WaitForCoreHalted(_), DebugProbeError::Timeout))
    ));
    assert_eq!(*performed.last().unwrap(), halt);
    assert!(!performed.contains(&AttachStep::ResetCatchClear));
}

#[test]
fn failed_debug_port_setup_gives_no_session() {
    let (result, performed) = attach(
        arm_target(),
        AttachMethod::Normal,
        Some((AttachStep::DebugPortSetup, DebugProbeError::ProbeSpecific)),
    );
    assert!(matches!(
        result,
        Err(SessionError::AttachFailed(AttachStep::DebugPortSetup, DebugProbeError::ProbeSpecific))
    ));
    assert_eq!(performed, vec![AttachStep::DebugPortSetup]);
}

#[test]
fn riscv_breakpoint_clear_failure_is_fatal() {
    let t = Target::new("fe310".to_string(), CoreType::Riscv, TargetDescriptionSource::BuiltIn);
    let (result, performed) = attach(
        t,
        AttachMethod::Normal,
        Some((AttachStep::ClearHwBreakpoints(0), DebugProbeError::ProbeSpecific)),
    );
    assert!(matches!(
        result,
        Err(SessionError::AttachFailed(
            AttachStep::ClearHwBreakpoints(0),
            DebugProbeError::ProbeSpecific
        ))
    ));
    assert_eq!(
        performed,
        vec![
            AttachStep::CreateRiscvInterface,
            AttachStep::HaltCore(HALT_TIMEOUT_MS),
            AttachStep::ClearHwBreakpoints(0),
        ]
    );
}

#[test]
fn jtag_lengths_the_data_cannot_hold_are_refused() {
    assert_eq!(ir_write_sequence(&[0x1], 0), Err(DebugProbeError::InvalidBitLength));
    assert_eq!(ir_write_sequence(&[0x1], 9), Err(DebugProbeError::InvalidBitLength));
    assert!(ir_write_sequence(&[0x1, 0x2], 9).is_ok());
    assert_eq!(dr_write_sequence(&[], 1, 0), Err(DebugProbeError::InvalidBitLength));
    assert_eq!(dr_write_sequence(&[0xff], 0, 0), Err(DebugProbeError::InvalidBitLength));
    assert!(dr_write_sequence(&[0xff], 8, 0).is_ok());
}
