//! Bit sequences of JTAG instruction- and data-register shifts.
//!
//! A sequence is a pair of vectors of equal length: the TMS values, which
//! walk the TAP state machine, and the TDI values shifted in.
use vstd::prelude::*;
use vstd::slice::slice_subrange;
use crate::codec::{bits_to_byte, bits_value, push_repeat, repeat};
use crate::error::DebugProbeError;

verus! {

/// The first `n` bits of `data`, each byte least significant bit first.
pub open spec fn data_bits(data: Seq<u8>, n: nat) -> Seq<bool> {
    Seq::new(n, |i: int| (data[i / 8] >> ((i % 8) as u8)) & 1u8 == 1u8)
}

/// TMS of an instruction-register write of `len` bits: enter Shift-IR, stay
/// for `len - 1` clocks (the last bit goes out on the exit), go to idle.
pub open spec fn ir_tms(len: nat) -> Seq<bool> {
    seq![true, true, false, false] + repeat(false, (len - 1) as nat) + seq![true, true, false]
}

/// TDI of an instruction-register write: the register value, low bit first.
pub open spec fn ir_tdi(data: Seq<u8>, len: nat) -> Seq<bool> {
    repeat(false, 4) + data_bits(data, len) + repeat(false, 2)
}

/// TMS of a data-register shift of `bits` bits, followed by `idle` clocks in
/// Run-Test/Idle.
pub open spec fn dr_tms(bits: nat, idle: nat) -> Seq<bool> {
    seq![true, false, false] + repeat(false, (bits - 1) as nat) + seq![true, true, false] + repeat(
        false,
        idle,
    )
}

/// TDI of a data-register write.
pub open spec fn dr_write_tdi(data: Seq<u8>, bits: nat, idle: nat) -> Seq<bool> {
    repeat(false, 3) + data_bits(data, bits) + repeat(false, 2) + repeat(false, idle)
}

/// The bytes of a shifted-out register of `bits` bits, found in a response
/// after the three bits of entering Shift-DR; the last byte may be partial.
pub open spec fn dr_bytes(response: Seq<bool>, bits: nat) -> Seq<u8> {
    Seq::new(
        (bits + 7) / 8,
        |k: int|
            bits_value(
                response.subrange(
                    3 + 8 * k,
                    3 + if 8 * k + 8 <= bits {
                        8 * k + 8
                    } else {
                        bits as int
                    },
                ),
            ) as u8,
    )
}

fn push_data_bits(v: &mut Vec<bool>, data: &[u8], n: usize)
    requires
        n <= data@.len() * 8,
    ensures
        final(v)@ == old(v)@ + data_bits(data@, n as nat),
{
    let ghost start = v@;
    let mut i: usize = 0;
    while i < n
        invariant
            i <= n,
            n <= data@.len() * 8,
            v@ == start + data_bits(data@, i as nat),
        decreases n - i,
    {
        let byte = data[i / 8];
        v.push((byte >> ((i % 8) as u8)) & 1u8 == 1u8);
        i = i + 1;
        assert(v@ =~= start + data_bits(data@, i as nat));
    }
}

/// Whether `len` bits is a register length that `data` can hold: at least
/// one bit, and no more than its bytes hold.
pub open spec fn fits(data: Seq<u8>, len: nat) -> bool {
    1 <= len <= data.len() * 8
}

/// Tests `fits` without overflowing.
pub fn bit_length_fits(data: &[u8], len: usize) -> (r: bool)
    ensures
        r == fits(data@, len as nat),
{
    if len == 0 {
        return false;
    }
    let needed = (len - 1) / 8;
    let r = needed < data.len();
    assert(r == (len <= data@.len() * 8)) by (nonlinear_arith)
        requires
            len >= 1,
            needed == (len - 1) / 8,
            r == (needed < data@.len()),
    ;
    r
}

/// TMS and TDI of an instruction-register write of `len` bits of `data`.
/// A length of zero bits, or of more bits than `data` holds, is refused.
pub fn ir_write_sequence(data: &[u8], len: usize) -> (r: Result<
    (Vec<bool>, Vec<bool>),
    DebugProbeError,
>)
    ensures
        !fits(data@, len as nat) ==> r == Err::<(Vec<bool>, Vec<bool>), DebugProbeError>(
            DebugProbeError::InvalidBitLength,
        ),
        fits(data@, len as nat) ==> (r matches Ok(seqs) && seqs.0@ == ir_tms(len as nat)
            && seqs.1@ == ir_tdi(data@, len as nat) && seqs.0@.len() == seqs.1@.len()),
{
    if !bit_length_fits(data, len) {
        return Err(DebugProbeError::InvalidBitLength);
    }
    let mut tms = vec![true, true, false, false];
    push_repeat(&mut tms, false, len - 1);
    tms.push(true);
    tms.push(true);
    tms.push(false);
    assert(tms@ =~= ir_tms(len as nat));
    let mut tdi: Vec<bool> = Vec::new();
    push_repeat(&mut tdi, false, 4);
    push_data_bits(&mut tdi, data, len);
    push_repeat(&mut tdi, false, 2);
    Ok((tms, tdi))
}

fn dr_tms_sequence(register_bits: usize, idle: usize) -> (r: Vec<bool>)
    requires
        register_bits >= 1,
    ensures
        r@ == dr_tms(register_bits as nat, idle as nat),
{
    let mut tms = vec![true, false, false];
    push_repeat(&mut tms, false, register_bits - 1);
    tms.push(true);
    tms.push(true);
    tms.push(false);
    push_repeat(&mut tms, false, idle);
    assert(tms@ =~= dr_tms(register_bits as nat, idle as nat));
    tms
}

/// TMS and TDI of a data-register write of `register_bits` bits of `data`,
/// followed by `idle` idle clocks. A length of zero bits, or of more bits
/// than `data` holds, is refused.
pub fn dr_write_sequence(data: &[u8], register_bits: usize, idle: u8) -> (r: Result<
    (Vec<bool>, Vec<bool>),
    DebugProbeError,
>)
    ensures
        !fits(data@, register_bits as nat) ==> r == Err::<(Vec<bool>, Vec<bool>), DebugProbeError>(
            DebugProbeError::InvalidBitLength,
        ),
        fits(data@, register_bits as nat) ==> (r matches Ok(seqs) && seqs.0@ == dr_tms(
            register_bits as nat,
            idle as nat,
        ) && seqs.1@ == dr_write_tdi(data@, register_bits as nat, idle as nat) && seqs.0@.len()
            == seqs.1@.len()),
{
    if !bit_length_fits(data, register_bits) {
        return Err(DebugProbeError::InvalidBitLength);
    }
    let tms = dr_tms_sequence(register_bits, idle as usize);
    let mut tdi: Vec<bool> = Vec::new();
    push_repeat(&mut tdi, false, 3);
    push_data_bits(&mut tdi, data, register_bits);
    push_repeat(&mut tdi, false, 2);
    push_repeat(&mut tdi, false, idle as usize);
    Ok((tms, tdi))
}

/// TMS and TDI of a data-register read of `register_bits` bits, followed by
/// `idle` idle clocks; TDI stays low throughout.
pub fn dr_read_sequence(register_bits: usize, idle: u8) -> (r: (Vec<bool>, Vec<bool>))
    requires
        1 <= register_bits <= usize::MAX - 300,
    ensures
        r.0@ == dr_tms(register_bits as nat, idle as nat),
        r.1@ == repeat(false, r.0@.len()),
{
    let tms = dr_tms_sequence(register_bits, idle as usize);
    let mut tdi: Vec<bool> = Vec::new();
    push_repeat(&mut tdi, false, tms.len());
    assert(tdi@ =~= repeat(false, tms@.len()));
    (tms, tdi)
}

/// The bytes of a `register_bits`-bit register shifted out in `response`.
pub fn dr_response_bytes(response: &[bool], register_bits: usize) -> (r: Vec<u8>)
    requires
        3 + register_bits <= response@.len(),
    ensures
        r@ == dr_bytes(response@, register_bits as nat),
{
    let available = response.len();
    let mut result: Vec<u8> = Vec::new();
    let mut k: usize = 0;
    let n = register_bits / 8 + if register_bits % 8 == 0 {
        0usize
    } else {
        1usize
    };
    assert(n == (register_bits + 7) / 8);
    while k < n
        invariant
            3 + register_bits <= response@.len(),
            available == response@.len(),
            n == (register_bits + 7) / 8,
            k <= n,
            result@ == dr_bytes(response@, register_bits as nat).take(k as int),
        decreases n - k,
    {
        let whole = k < register_bits / 8;
        proof {
            assert(whole ==> 8 * k + 8 <= register_bits) by (nonlinear_arith)
                requires
                    whole == (k < register_bits / 8),
            ;
            assert(!whole ==> 8 * k + 8 > register_bits) by (nonlinear_arith)
                requires
                    whole == (k < register_bits / 8),
            ;
            assert(8 * k <= register_bits) by (nonlinear_arith)
                requires
                    k < n,
                    n == (register_bits + 7) / 8,
            ;
        }
        let end = if whole {
            8 * k + 8
        } else {
            register_bits
        };
        let value = bits_to_byte(slice_subrange(response, 3 + 8 * k, 3 + end));
        let byte = #[verifier::truncate] (value as u8);
        result.push(byte);
        k = k + 1;
        assert(result@ =~= dr_bytes(response@, register_bits as nat).take(k as int));
    }
    assert(result@ =~= dr_bytes(response@, register_bits as nat));
    result
}

} // verus!
