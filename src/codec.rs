//! Bit-sequence codec for SWD transfers.
//!
//! A sequence is a pair of bit vectors of equal length: the SWDIO values, and
//! a direction vector in which `true` means the host drives the line and
//! `false` means the host releases it to sample it.
use vstd::prelude::*;

verus! {

/// Which kind of port a register lives in.
#[derive(Clone, Copy, Debug, PartialEq, Eq, Structural)]
pub enum PortType {
    DebugPort,
    AccessPort(u16),
}

/// Direction of a transfer; a write carries its 32-bit value.
#[derive(Clone, Copy, Debug, PartialEq, Eq, Structural)]
pub enum TransferType {
    Read,
    Write(u32),
}

/// Bit `i` of `v`.
pub open spec fn bit_of(v: u32, i: int) -> bool {
    (v >> (i as u32)) & 1u32 == 1u32
}

/// The 32 bits of `v`, least significant first.
pub open spec fn u32_bits(v: u32) -> Seq<bool> {
    Seq::new(32, |i: int| bit_of(v, i))
}

/// XOR of all bits of `s`.
pub open spec fn xor_fold(s: Seq<bool>) -> bool
    decreases s.len(),
{
    if s.len() == 0 {
        false
    } else {
        xor_fold(s.drop_last()) != s.last()
    }
}

/// Number of set bits of `s`.
pub open spec fn count_set(s: Seq<bool>) -> nat
    decreases s.len(),
{
    if s.len() == 0 {
        0
    } else {
        count_set(s.drop_last()) + if s.last() {
            1nat
        } else {
            0nat
        }
    }
}

/// The value whose bit `i` is `s[i]`, for the first 32 entries of `s`.
pub open spec fn bits_value(s: Seq<bool>) -> u32
    decreases s.len(),
{
    if s.len() == 0 {
        0
    } else if s.len() > 32 {
        bits_value(s.take(32))
    } else if s.last() {
        bits_value(s.drop_last()) | (1u32 << ((s.len() - 1) as u32))
    } else {
        bits_value(s.drop_last())
    }
}

/// `n` copies of `b`.
pub open spec fn repeat(b: bool, n: nat) -> Seq<bool> {
    Seq::new(n, |i: int| b)
}

/// The APnDP bit of a request.
pub open spec fn is_access_port(port: PortType) -> bool {
    port is AccessPort
}

/// The 8-bit SWD request header: start, APnDP, RnW, A2, A3, parity, stop, park.
pub open spec fn request_header(port: PortType, read: bool, address: u16) -> Seq<bool> {
    let ap = is_access_port(port);
    let a2 = (address >> 2u16) & 1u16 == 1u16;
    let a3 = (address >> 3u16) & 1u16 == 1u16;
    seq![true, ap, read, a2, a3, ap ^ read ^ a2 ^ a3, false, true]
}

/// SWDIO values of a transfer: two idle bits, the header, three
/// acknowledgement placeholders, then for a write two turnaround bits, the
/// data least significant bit first and its even parity, and for a read
/// placeholders for data, parity and turnaround.
pub open spec fn transfer_io(port: PortType, direction: TransferType, address: u16) -> Seq<bool> {
    let head = seq![false, false] + request_header(port, direction is Read, address) + repeat(
        false,
        3,
    );
    match direction {
        TransferType::Read => head + repeat(false, 34),
        TransferType::Write(v) => head + repeat(false, 2) + u32_bits(v) + seq![
            xor_fold(u32_bits(v)),
        ],
    }
}

/// Direction bits of a transfer: the host drives idle and header, samples the
/// acknowledgement, samples data, parity and turnaround of a read, and drives
/// data and parity of a write after two released turnaround bits.
pub open spec fn transfer_direction(direction: TransferType) -> Seq<bool> {
    let head = repeat(true, 10) + repeat(false, 3);
    match direction {
        TransferType::Read => head + repeat(false, 34),
        TransferType::Write(_) => head + repeat(false, 2) + repeat(true, 33),
    }
}

/// Even parity of a 32-bit value: `true` when an odd number of bits is set.
pub fn parity_of(value: u32) -> (r: bool)
    ensures
        r == xor_fold(u32_bits(value)),
{
    let mut parity = false;
    let mut i: u32 = 0;
    while i < 32
        invariant
            i <= 32,
            parity == xor_fold(u32_bits(value).take(i as int)),
        decreases 32 - i,
    {
        let bit = (value >> i) & 1 == 1;
        assert(u32_bits(value).take(i + 1).drop_last() =~= u32_bits(value).take(i as int));
        parity = parity != bit;
        i = i + 1;
    }
    assert(u32_bits(value).take(32) =~= u32_bits(value));
    parity
}

/// Appends `n` copies of `b`.
pub(crate) fn push_repeat(v: &mut Vec<bool>, b: bool, n: usize)
    ensures
        final(v)@ == old(v)@ + repeat(b, n as nat),
{
    let ghost start = v@;
    let mut i: usize = 0;
    while i < n
        invariant
            i <= n,
            v@ == start + repeat(b, i as nat),
        decreases n - i,
    {
        v.push(b);
        i = i + 1;
        assert(v@ =~= start + repeat(b, i as nat));
    }
}

/// The sixteen bits of the JTAG-to-SWD switch pattern, first bit first
/// (0xE79E sent least significant bit first).
pub open spec fn jtag_to_swd_bits() -> Seq<bool> {
    seq![
        false,
        true,
        true,
        true,
        true,
        false,
        false,
        true,
        true,
        true,
        true,
        false,
        false,
        true,
        true,
        true,
    ]
}

/// Appends the JTAG-to-SWD switch pattern.
pub(crate) fn push_jtag_to_swd(v: &mut Vec<bool>)
    ensures
        final(v)@ == old(v)@ + jtag_to_swd_bits(),
{
    let mut tail = vec![
        false,
        true,
        true,
        true,
        true,
        false,
        false,
        true,
        true,
        true,
        true,
        false,
        false,
        true,
        true,
        true,
    ];
    let ghost start = v@;
    v.append(&mut tail);
    assert(v@ =~= start + jtag_to_swd_bits());
}

/// Builds the SWDIO and direction sequences of one SWD transfer.
pub fn build_swd_transfer(port: PortType, direction: TransferType, address: u16) -> (r: (
    Vec<bool>,
    Vec<bool>,
))
    ensures
        r.0@ == transfer_io(port, direction, address),
        r.1@ == transfer_direction(direction),
        r.0@.len() == r.1@.len(),
{
    let ap = match port {
        PortType::DebugPort => false,
        PortType::AccessPort(_) => true,
    };
    let read = match direction {
        TransferType::Read => true,
        TransferType::Write(_) => false,
    };
    let a2 = (address >> 2u16) & 1u16 == 1u16;
    let a3 = (address >> 3u16) & 1u16 == 1u16;
    let mut io = vec![false, false, true, ap, read, a2, a3, ap ^ read ^ a2 ^ a3, false, true];
    push_repeat(&mut io, false, 3);
    assert(io@ =~= seq![false, false] + request_header(port, direction is Read, address) + repeat(
        false,
        3,
    ));
    let mut dir: Vec<bool> = Vec::new();
    push_repeat(&mut dir, true, 10);
    push_repeat(&mut dir, false, 3);
    match direction {
        TransferType::Read => {
            push_repeat(&mut io, false, 34);
            push_repeat(&mut dir, false, 34);
        },
        TransferType::Write(value) => {
            push_repeat(&mut io, false, 2);
            let ghost before = io@;
            let mut i: u32 = 0;
            while i < 32
                invariant
                    i <= 32,
                    io@ == before + u32_bits(value).take(i as int),
                decreases 32 - i,
            {
                io.push((value >> i) & 1 == 1);
                i = i + 1;
                assert(io@ =~= before + u32_bits(value).take(i as int));
            }
            assert(u32_bits(value).take(32) =~= u32_bits(value));
            let parity = parity_of(value);
            io.push(parity);
            assert(io@ =~= before + u32_bits(value) + seq![xor_fold(u32_bits(value))]);
            push_repeat(&mut dir, false, 2);
            push_repeat(&mut dir, true, 33);
        },
    }
    (io, dir)
}

/// Packs up to 32 bits, least significant first, into a value.
pub fn bits_to_byte(bits: &[bool]) -> (r: u32)
    ensures
        r == bits_value(bits@),
{
    let n: usize = if bits.len() > 32 {
        32
    } else {
        bits.len()
    };
    let mut value: u32 = 0;
    let mut i: usize = 0;
    while i < n
        invariant
            n <= 32,
            n <= bits@.len(),
            n == bits@.len() || n == 32,
            i <= n,
            value == bits_value(bits@.take(i as int)),
        decreases n - i,
    {
        assert(bits@.take(i + 1).drop_last() =~= bits@.take(i as int));
        if bits[i] {
            value = value | (1u32 << (i as u32));
        }
        i = i + 1;
    }
    proof {
        if bits@.len() > 32 {
            assert(bits_value(bits@) == bits_value(bits@.take(32)));
        } else {
            assert(bits@.take(n as int) =~= bits@);
        }
    }
    value
}

/// The low `k` bits of `v`.
pub open spec fn low_bits(v: u32, k: nat) -> u32 {
    if k >= 32 {
        v
    } else {
        v & (((1u32 << (k as u32)) - 1) as u32)
    }
}

proof fn lemma_low_bits_step(v: u32, k: u32)
    requires
        k < 32,
    ensures
        low_bits(v, (k + 1) as nat) == if bit_of(v, k as int) {
            low_bits(v, k as nat) | (1u32 << k)
        } else {
            low_bits(v, k as nat)
        },
{
    let lo = v & (((1u32 << k) - 1) as u32);
    if k < 31 {
        let k1: u32 = (k + 1) as u32;
        assert(((v >> k) & 1u32 == 1u32) ==> (v & (((1u32 << k1) - 1) as u32)) == ((v & (((1u32
            << k) - 1) as u32)) | (1u32 << k))) by (bit_vector)
            requires
                k < 31,
                k1 == k + 1,
        ;
        assert(((v >> k) & 1u32 != 1u32) ==> (v & (((1u32 << k1) - 1) as u32)) == (v & (((1u32
            << k) - 1) as u32))) by (bit_vector)
            requires
                k < 31,
                k1 == k + 1,
        ;
    } else {
        assert(((v >> 31u32) & 1u32 == 1u32) ==> v == ((v & (((1u32 << 31u32) - 1) as u32)) | (1u32
            << 31u32))) by (bit_vector);
        assert(((v >> 31u32) & 1u32 != 1u32) ==> v == (v & (((1u32 << 31u32) - 1) as u32)))
            by (bit_vector);
    }
}

proof fn lemma_bits_value_prefix(v: u32, k: nat)
    requires
        k <= 32,
    ensures
        bits_value(u32_bits(v).take(k as int)) == low_bits(v, k),
    decreases k,
{
    let s = u32_bits(v).take(k as int);
    if k == 0 {
        assert(v & (((1u32 << 0u32) - 1) as u32) == 0u32) by (bit_vector);
    } else {
        let j = (k - 1) as nat;
        lemma_bits_value_prefix(v, j);
        assert(s.drop_last() =~= u32_bits(v).take(j as int));
        lemma_low_bits_step(v, j as u32);
    }
}

/// Packing the 32 bits of a value gives the value back.
pub proof fn lemma_bits_round_trip(v: u32)
    ensures
        bits_value(u32_bits(v)) == v,
{
    lemma_bits_value_prefix(v, 32);
    assert(u32_bits(v).take(32) =~= u32_bits(v));
}

/// The data field of an encoded write, read back from the host-driven
/// SWDIO bits (positions 15 to 46), is the value that was written.
pub proof fn lemma_write_data_round_trip(port: PortType, address: u16, value: u32)
    ensures
        bits_value(transfer_io(port, TransferType::Write(value), address).subrange(15, 47))
            == value,
        transfer_direction(TransferType::Write(value)).subrange(15, 47) == repeat(true, 32),
{
    let io = transfer_io(port, TransferType::Write(value), address);
    assert(io.subrange(15, 47) =~= u32_bits(value));
    assert(transfer_direction(TransferType::Write(value)).subrange(15, 47) =~= repeat(true, 32));
    lemma_bits_round_trip(value);
}

/// The XOR of a bit sequence is set exactly when it holds an odd number of
/// set bits.
pub proof fn lemma_xor_fold_is_odd_count(s: Seq<bool>)
    ensures
        xor_fold(s) == (count_set(s) % 2 == 1),
    decreases s.len(),
{
    if s.len() > 0 {
        lemma_xor_fold_is_odd_count(s.drop_last());
    }
}

/// The parity bit that ends an encoded write is set exactly when the value
/// written has an odd number of set bits.
pub proof fn lemma_write_parity(port: PortType, address: u16, value: u32)
    ensures
        transfer_io(port, TransferType::Write(value), address)[47] == (count_set(u32_bits(value))
            % 2 == 1),
{
    lemma_xor_fold_is_odd_count(u32_bits(value));
}

} // verus!
