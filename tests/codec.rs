use probe_rs::codec::{bits_to_byte, build_swd_transfer, parity_of, PortType, TransferType};
use probe_rs::engine::{
    classify_ack, classify_line_reset_ack, decode_dp_read, fault_recovery, line_reset_transfer,
    Ack,
};
use probe_rs::error::DapError;

#[test]
fn write_data_round_trips() {
    for value in [0u32, 1, 0x8000_0000, 0xdead_beef, u32::MAX, 0x1234_5678] {
        let (io, dir) = build_swd_transfer(PortType::AccessPort(3), TransferType::Write(value), 0xc);
        assert_eq!(io.len(), 48);
        assert_eq!(dir.len(), 48);
        assert_eq!(bits_to_byte(&io[15..47]), value);
        assert!(dir[15..48].iter().all(|b| *b));
    }
}

#[test]
fn write_parity_matches_popcount() {
    for value in [0u32, 1, 3, 7, 0xffff_ffff, 0xffff_fffe, 0x8000_0001] {
        let (io, _) = build_swd_transfer(PortType::DebugPort, TransferType::Write(value), 0);
        assert_eq!(io[47], value.count_ones() % 2 == 1);
        assert_eq!(parity_of(value), value.count_ones() % 2 == 1);
    }
}

#[test]
fn read_request_header_bits() {
    let (io, dir) = build_swd_transfer(PortType::AccessPort(0), TransferType::Read, 0xc);
    let expected_head = [
        false, false, true, true, true, true, true, false, false, true, false, false, false,
    ];
    assert_eq!(&io[..13], &expected_head);
    assert_eq!(io.len(), 47);
    assert!(io[13..].iter().all(|b| !*b));
    assert!(dir[..10].iter().all(|b| *b));
    assert!(dir[10..].iter().all(|b| !*b));
}

#[test]
fn dp_write_header_parity() {
    let (io, _) = build_swd_transfer(PortType::DebugPort, TransferType::Write(0), 0x4);
    // start, APnDP=0, RnW=0, A2=1, A3=0, parity=1, stop, park
    assert_eq!(&io[2..10], &[true, false, false, true, false, true, false, true]);
    assert_eq!(&io[13..15], &[false, false]);
}

#[test]
fn bits_to_byte_takes_first_32_bits() {
    let mut bits = vec![false; 40];
    bits[0] = true;
    bits[31] = true;
    bits[35] = true;
    assert_eq!(bits_to_byte(&bits), 0x8000_0001);
    assert_eq!(bits_to_byte(&[true, false, true]), 5);
    assert_eq!(bits_to_byte(&[]), 0);
}

#[test]
fn ack_classification() {
    assert_eq!(classify_ack(true, false, false), Ack::Okay);
    assert_eq!(classify_ack(false, true, false), Ack::Wait);
    assert_eq!(classify_ack(false, false, true), Ack::Fault);
    assert_eq!(classify_ack(true, true, true), Ack::NoAck);
    assert_eq!(classify_ack(false, false, false), Ack::Okay);
    assert_eq!(classify_line_reset_ack(false, false, false), Ack::NoAck);
    assert_eq!(classify_line_reset_ack(true, false, false), Ack::Okay);
    assert_eq!(classify_line_reset_ack(false, false, true), Ack::Fault);
}

#[test]
fn dp_read_decoding() {
    let mut r = vec![false; 47];
    r[13] = true;
    r[14] = true;
    assert_eq!(decode_dp_read(&r), Ok(3));
    r[13 + 2] = true;
    assert_eq!(decode_dp_read(&r), Err(DapError::IncorrectParity));
    r[45] = true;
    assert_eq!(decode_dp_read(&r), Ok(7));
}

#[test]
fn fault_recovery_values() {
    assert_eq!(fault_recovery(0), None);
    assert_eq!(fault_recovery(0x2), Some(0x10));
    assert_eq!(fault_recovery(0x20), Some(0x4));
    assert_eq!(fault_recovery(0x22), Some(0x14));
    assert_eq!(fault_recovery(0xffff_ffdd), None);
}

#[test]
fn line_reset_sequence_shape() {
    let (io, dir) = line_reset_transfer();
    assert_eq!(io.len(), 115);
    assert_eq!(dir.len(), 115);
    assert!(io[..50].iter().all(|b| *b));
    let magic: u16 = (0..16).fold(0, |acc, i| acc | ((io[50 + i] as u16) << i));
    assert_eq!(magic, 0xe79e);
    assert_eq!(&io[66..68], &[false, false]);
    assert!(dir[..68].iter().all(|b| *b));
    let (req, req_dir) = build_swd_transfer(PortType::DebugPort, TransferType::Read, 0);
    assert_eq!(&io[68..], &req[..]);
    assert_eq!(&dir[68..], &req_dir[..]);
}
