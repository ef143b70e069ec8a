//! State and decisions of a J-Link style probe driver.
//!
//! The driver's USB traffic happens outside this module; what is decided
//! here is which protocol to use, which clock divider to program, which bits
//! to shift, and when the JTAG instruction register must be rewritten.
use vstd::prelude::*;
use crate::codec::repeat;
use crate::error::{DebugProbeError, NotImplementedKind, WireProtocol};
use crate::jtag::{bit_length_fits, fits};

verus! {

/// Highest JTAG register address that the driver can select.
pub const MAX_JTAG_ADDRESS: u32 = 0x1f;

/// Width of the instruction register written to select a JTAG register.
pub const JTAG_IR_LEN: usize = 5;

/// A value of the instruction-register cache that matches no address.
pub const IR_UNKNOWN: u32 = 0xffff_ffff;

/// What a probe driver keeps between transactions.
pub struct ProbeState {
    /// Idle cycles between consecutive JTAG data-register accesses.
    pub jtag_idle_cycles: u8,
    /// The protocol selected, once one is.
    pub protocol: Option<WireProtocol>,
    /// Protocols the probe supports.
    pub supported_protocols: Vec<WireProtocol>,
    /// The JTAG register that the instruction register currently selects.
    pub current_ir_reg: u32,
    /// Clock speed in kHz, once set.
    pub speed_khz: u32,
}

/// The protocol the probe speaks after being asked for `requested`: a probe
/// that can switch interfaces speaks any of those it reports, one that
/// cannot speaks JTAG only.
pub open spec fn interface_choice(
    can_select: bool,
    requested: WireProtocol,
    available: Seq<WireProtocol>,
) -> Result<WireProtocol, DebugProbeError> {
    if (can_select && available.contains(requested)) || (!can_select && requested
        == WireProtocol::Jtag) {
        Ok(requested)
    } else {
        Err(DebugProbeError::UnsupportedProtocol(requested))
    }
}

/// The protocols a probe supports, given whether it can switch interfaces
/// and the interfaces it reports (`None` for one that is neither SWD nor
/// JTAG).
pub open spec fn supported_of(can_select: bool, reported: Seq<Option<WireProtocol>>) -> Seq<
    WireProtocol,
> {
    if can_select {
        reported.filter(|p: Option<WireProtocol>| p is Some).map_values(
            |p: Option<WireProtocol>| p->Some_0,
        )
    } else {
        seq![WireProtocol::Jtag]
    }
}

/// The clock speed in kHz that a request for `speed_khz` gives, given the
/// probe's base frequency (Hz) and minimal divider when it reports them.
pub open spec fn speed_result(speed_khz: u32, speeds: Option<(u32, u16)>) -> Result<
    u32,
    DebugProbeError,
> {
    if speed_khz == 0 || speed_khz >= 0xffff {
        Err(DebugProbeError::UnsupportedSpeed(speed_khz))
    } else {
        match speeds {
            None => Ok(speed_khz),
            Some((base, min_div)) => {
                let speed_hz = 1000 * speed_khz;
                let div0 = (base as int + speed_hz - 1) / speed_hz;
                let div = if div0 >= min_div {
                    div0
                } else {
                    min_div as int
                };
                if div == 0 {
                    Err(DebugProbeError::UnsupportedSpeed(speed_khz))
                } else {
                    let actual = (base as int / div + 999) / 1000;
                    if actual > speed_khz {
                        Err(DebugProbeError::UnsupportedSpeed(speed_khz))
                    } else {
                        Ok(actual as u32)
                    }
                }
            },
        }
    }
}

/// The bits of an SWJ sequence of `bit_len` bits: those of `bits`, low bit
/// first, then low bits past the 64th.
pub open spec fn swj_bits_of(bit_len: u8, bits: u64) -> Seq<bool> {
    Seq::new(bit_len as nat, |i: int| i < 64 && (bits >> (i as u64)) & 1u64 == 1u64)
}

/// Pin levels to drive, one per pin that the probe can drive; `None` leaves
/// the pin alone.
#[derive(Clone, Copy, Debug, PartialEq, Eq, Structural)]
pub struct PinWrites {
    pub tms: Option<bool>,
    pub tdi: Option<bool>,
    pub trst: Option<bool>,
    pub reset: Option<bool>,
}

/// The level requested for pin `bit` when `pin_select` selects it.
pub open spec fn pin_level(pin_out: u32, pin_select: u32, bit: u32) -> Option<bool> {
    if pin_select & (1u32 << bit) != 0 {
        Some(pin_out & (1u32 << bit) != 0)
    } else {
        None
    }
}

impl ProbeState {
    /// The state of a freshly opened probe that supports `supported`.
    pub fn new(supported: Vec<WireProtocol>) -> (r: ProbeState)
        ensures
            r.supported_protocols@ == supported@,
            r.protocol is None,
            r.jtag_idle_cycles == 0,
            r.speed_khz == 0,
            r.current_ir_reg == 1,
    {
        ProbeState {
            jtag_idle_cycles: 0,
            protocol: None,
            supported_protocols: supported,
            current_ir_reg: 1,
            speed_khz: 0,
        }
    }

    /// Whether the probe supports `p`.
    pub fn supports(&self, p: WireProtocol) -> (r: bool)
        ensures
            r == self.supported_protocols@.contains(p),
    {
        let mut i: usize = 0;
        while i < self.supported_protocols.len()
            invariant
                i <= self.supported_protocols@.len(),
                forall|j: int| 0 <= j < i ==> self.supported_protocols@[j] != p,
            decreases self.supported_protocols@.len() - i,
        {
            if self.supported_protocols[i] == p {
                return true;
            }
            i = i + 1;
        }
        false
    }

    /// Whether the probe can reach an ARM target (over SWD).
    pub fn has_arm_interface(&self) -> (r: bool)
        ensures
            r == self.supported_protocols@.contains(WireProtocol::Swd),
    {
        self.supports(WireProtocol::Swd)
    }

    /// Whether the probe can reach a RISC-V target (over JTAG).
    pub fn has_riscv_interface(&self) -> (r: bool)
        ensures
            r == self.supported_protocols@.contains(WireProtocol::Jtag),
    {
        self.supports(WireProtocol::Jtag)
    }

    /// The protocol to attach with: the one selected, else SWD when
    /// supported, else the first supported one.
    pub fn attach_protocol(&self) -> (r: WireProtocol)
        requires
            self.supported_protocols@.len() > 0,
        ensures
            r == match self.protocol {
                Some(p) => p,
                None => if self.supported_protocols@.contains(WireProtocol::Swd) {
                    WireProtocol::Swd
                } else {
                    self.supported_protocols@[0]
                },
            },
    {
        match self.protocol {
            Some(p) => p,
            None => {
                if self.supports(WireProtocol::Swd) {
                    WireProtocol::Swd
                } else {
                    self.supported_protocols[0]
                }
            },
        }
    }

    /// Records the outcome of selecting `requested` on the probe, where
    /// `actual` is the protocol the probe then speaks. The cached JTAG
    /// instruction register is forgotten, since a switch desynchronises the
    /// scan chain.
    pub fn protocol_selected(&mut self, requested: WireProtocol, actual: WireProtocol) -> (r: Result<
        (),
        DebugProbeError,
    >)
        ensures
            final(self).protocol == Some(actual),
            final(self).current_ir_reg == IR_UNKNOWN,
            final(self).supported_protocols@ == old(self).supported_protocols@,
            final(self).jtag_idle_cycles == old(self).jtag_idle_cycles,
            final(self).speed_khz == old(self).speed_khz,
            r == if actual == requested {
                Ok::<(), DebugProbeError>(())
            } else {
                Err(DebugProbeError::UnsupportedProtocol(requested))
            },
    {
        self.protocol = Some(actual);
        self.current_ir_reg = IR_UNKNOWN;
        if actual == requested {
            Ok(())
        } else {
            Err(DebugProbeError::UnsupportedProtocol(requested))
        }
    }

    /// Whether selecting JTAG register `address` takes an instruction
    /// register write first; addresses over 5 bits are not supported.
    pub fn ir_write_needed(&self, address: u32) -> (r: Result<bool, DebugProbeError>)
        ensures
            r == if address > MAX_JTAG_ADDRESS {
                Err(DebugProbeError::NotImplemented(NotImplementedKind::WideRegisterAddress))
            } else {
                Ok::<bool, DebugProbeError>(self.current_ir_reg != address)
            },
    {
        if address > MAX_JTAG_ADDRESS {
            Err(DebugProbeError::NotImplemented(NotImplementedKind::WideRegisterAddress))
        } else {
            Ok(self.current_ir_reg != address)
        }
    }

    /// Records an instruction register write of `len` bits of `data`: a
    /// length of zero bits or of more bits than `data` holds is refused,
    /// registers wider than 8 bits are not supported, otherwise the first
    /// byte is what the register now selects.
    pub fn ir_written(&mut self, data: &[u8], len: usize) -> (r: Result<(), DebugProbeError>)
        ensures
            !fits(data@, len as nat) ==> r == Err::<(), DebugProbeError>(
                DebugProbeError::InvalidBitLength,
            ) && final(self).current_ir_reg == old(self).current_ir_reg,
            fits(data@, len as nat) && len > 8 ==> r == Err::<(), DebugProbeError>(
                DebugProbeError::NotImplemented(NotImplementedKind::WideInstructionRegister),
            ) && final(self).current_ir_reg == old(self).current_ir_reg,
            fits(data@, len as nat) && len <= 8 ==> r is Ok && final(self).current_ir_reg
                == data@[0] as u32,
            final(self).protocol == old(self).protocol,
            final(self).supported_protocols@ == old(self).supported_protocols@,
            final(self).jtag_idle_cycles == old(self).jtag_idle_cycles,
            final(self).speed_khz == old(self).speed_khz,
    {
        if !bit_length_fits(data, len) {
            Err(DebugProbeError::InvalidBitLength)
        } else if len > 8 {
            Err(DebugProbeError::NotImplemented(NotImplementedKind::WideInstructionRegister))
        } else {
            self.current_ir_reg = data[0] as u32;
            Ok(())
        }
    }

    /// Forgets which register the instruction register selects, after
    /// anything that may have desynchronised the scan chain.
    pub fn invalidate_ir(&mut self)
        ensures
            final(self).current_ir_reg == IR_UNKNOWN,
            final(self).protocol == old(self).protocol,
            final(self).supported_protocols@ == old(self).supported_protocols@,
            final(self).jtag_idle_cycles == old(self).jtag_idle_cycles,
            final(self).speed_khz == old(self).speed_khz,
    {
        self.current_ir_reg = IR_UNKNOWN;
    }

    /// Sets the idle cycles between JTAG data-register accesses.
    pub fn set_idle_cycles(&mut self, idle_cycles: u8)
        ensures
            final(self).jtag_idle_cycles == idle_cycles,
            final(self).current_ir_reg == old(self).current_ir_reg,
            final(self).protocol == old(self).protocol,
            final(self).supported_protocols@ == old(self).supported_protocols@,
            final(self).speed_khz == old(self).speed_khz,
    {
        self.jtag_idle_cycles = idle_cycles;
    }

    /// Applies a speed request: on success the state holds the speed the
    /// probe will run at, which is returned.
    pub fn set_speed(&mut self, speed_khz: u32, speeds: Option<(u32, u16)>) -> (r: Result<
        u32,
        DebugProbeError,
    >)
        ensures
            r == speed_result(speed_khz, speeds),
            r is Ok ==> final(self).speed_khz == r->Ok_0,
            r is Err ==> final(self).speed_khz == old(self).speed_khz,
            final(self).current_ir_reg == old(self).current_ir_reg,
            final(self).protocol == old(self).protocol,
            final(self).supported_protocols@ == old(self).supported_protocols@,
            final(self).jtag_idle_cycles == old(self).jtag_idle_cycles,
    {
        let r = speed_for(speed_khz, speeds);
        if let Ok(actual) = r {
            self.speed_khz = actual;
        }
        r
    }
}

/// The protocol that a request for `requested` gives on a probe that can
/// (`can_select`) or cannot switch interfaces, and that reports `available`.
pub fn select_interface(can_select: bool, requested: WireProtocol, available: &[WireProtocol]) -> (r:
    Result<WireProtocol, DebugProbeError>)
    ensures
        r == interface_choice(can_select, requested, available@),
{
    if can_select {
        if contains_protocol(available, requested) {
            Ok(requested)
        } else {
            Err(DebugProbeError::UnsupportedProtocol(requested))
        }
    } else if requested == WireProtocol::Jtag {
        Ok(requested)
    } else {
        Err(DebugProbeError::UnsupportedProtocol(requested))
    }
}

fn contains_protocol(list: &[WireProtocol], p: WireProtocol) -> (r: bool)
    ensures
        r == list@.contains(p),
{
    let mut i: usize = 0;
    while i < list.len()
        invariant
            i <= list@.len(),
            forall|j: int| 0 <= j < i ==> list@[j] != p,
        decreases list@.len() - i,
    {
        if list[i] == p {
            assert(list@[i as int] == p);
            return true;
        }
        i = i + 1;
    }
    false
}

/// The protocols a probe supports, from what it reports; interfaces that
/// are neither SWD nor JTAG are left out.
pub fn supported_protocols(can_select: bool, reported: &[Option<WireProtocol>]) -> (r: Vec<
    WireProtocol,
>)
    ensures
        r@ == supported_of(can_select, reported@),
{
    if !can_select {
        return vec![WireProtocol::Jtag];
    }
    let mut out: Vec<WireProtocol> = Vec::new();
    let mut i: usize = 0;
    while i < reported.len()
        invariant
            i <= reported@.len(),
            out@ == reported@.take(i as int).filter(|p: Option<WireProtocol>| p is Some).map_values(
                |p: Option<WireProtocol>| p->Some_0,
            ),
        decreases reported@.len() - i,
    {
        proof {
            let f = |p: Option<WireProtocol>| p is Some;
            reveal(Seq::filter);
            assert(reported@.take(i + 1).drop_last() =~= reported@.take(i as int));
        }
        if let Some(p) = reported[i] {
            out.push(p);
        }
        i = i + 1;
        assert(out@ =~= reported@.take(i as int).filter(|p: Option<WireProtocol>| p is Some).map_values(
            |p: Option<WireProtocol>| p->Some_0,
        ));
    }
    assert(reported@.take(reported@.len() as int) =~= reported@);
    out
}

/// The clock speed that a request for `speed_khz` gives.
pub fn speed_for(speed_khz: u32, speeds: Option<(u32, u16)>) -> (r: Result<u32, DebugProbeError>)
    ensures
        r == speed_result(speed_khz, speeds),
{
    if speed_khz == 0 || speed_khz >= 0xffff {
        return Err(DebugProbeError::UnsupportedSpeed(speed_khz));
    }
    match speeds {
        None => Ok(speed_khz),
        Some((base, min_div)) => {
            let speed_hz: u64 = 1000 * speed_khz as u64;
            let div0: u64 = (base as u64 + speed_hz - 1) / speed_hz;
            let div: u64 = if div0 >= min_div as u64 {
                div0
            } else {
                min_div as u64
            };
            if div == 0 {
                return Err(DebugProbeError::UnsupportedSpeed(speed_khz));
            }
            let actual: u64 = (base as u64 / div + 999) / 1000;
            if actual > speed_khz as u64 {
                Err(DebugProbeError::UnsupportedSpeed(speed_khz))
            } else {
                Ok(actual as u32)
            }
        },
    }
}

/// The SWDIO bits of an SWJ sequence of `bit_len` bits taken from `bits`;
/// the host drives every one of them.
pub fn swj_bits(bit_len: u8, bits: u64) -> (r: Vec<bool>)
    ensures
        r@ == swj_bits_of(bit_len, bits),
{
    let mut out: Vec<bool> = Vec::new();
    let mut i: u8 = 0;
    while i < bit_len
        invariant
            i <= bit_len,
            out@ == swj_bits_of(bit_len, bits).take(i as int),
        decreases bit_len - i,
    {
        let b = if i < 64 {
            (bits >> (i as u64)) & 1u64 == 1u64
        } else {
            false
        };
        out.push(b);
        i = i + 1;
        assert(out@ =~= swj_bits_of(bit_len, bits).take(i as int));
    }
    assert(out@ =~= swj_bits_of(bit_len, bits));
    out
}

/// The pins to drive for an SWJ pin request: SWDIO/TMS is bit 1, TDI bit 2,
/// nTRST bit 5 and nRESET bit 7; SWCLK and TDO cannot be driven.
pub fn swj_pin_writes(pin_out: u32, pin_select: u32) -> (r: PinWrites)
    ensures
        r.tms == pin_level(pin_out, pin_select, 1),
        r.tdi == pin_level(pin_out, pin_select, 2),
        r.trst == pin_level(pin_out, pin_select, 5),
        r.reset == pin_level(pin_out, pin_select, 7),
{
    PinWrites {
        tms: level(pin_out, pin_select, 1),
        tdi: level(pin_out, pin_select, 2),
        trst: level(pin_out, pin_select, 5),
        reset: level(pin_out, pin_select, 7),
    }
}

fn level(pin_out: u32, pin_select: u32, bit: u32) -> (r: Option<bool>)
    requires
        bit < 32,
    ensures
        r == pin_level(pin_out, pin_select, bit),
{
    let mask = 1u32 << bit;
    if pin_select & mask != 0 {
        Some(pin_out & mask != 0)
    } else {
        None
    }
}

/// Which probe to open: by USB vendor and product id, and by serial number
/// when one is given.
#[derive(Clone, Debug)]
pub struct ProbeSelector {
    pub vendor_id: u16,
    pub product_id: u16,
    pub serial_number: Option<Vec<u8>>,
}

/// A probe found on the bus: its ids, and its serial number when the probe
/// could be opened to read it.
#[derive(Clone, Debug)]
pub struct ProbeCandidate {
    pub vendor_id: u16,
    pub product_id: u16,
    pub serial_number: Option<Vec<u8>>,
}

/// Whether `c` is a probe that `sel` selects: same ids, and the same serial
/// number when the selector names one.
pub open spec fn selects(sel: ProbeSelector, c: ProbeCandidate) -> bool {
    &&& c.vendor_id == sel.vendor_id
    &&& c.product_id == sel.product_id
    &&& match sel.serial_number {
        None => true,
        Some(s) => match c.serial_number {
            Some(t) => t@ == s@,
            None => false,
        },
    }
}

fn same_bytes(a: &[u8], b: &[u8]) -> (r: bool)
    ensures
        r == (a@ == b@),
{
    if a.len() != b.len() {
        return false;
    }
    let mut i: usize = 0;
    while i < a.len()
        invariant
            a@.len() == b@.len(),
            i <= a@.len(),
            forall|j: int| 0 <= j < i ==> a@[j] == b@[j],
        decreases a@.len() - i,
    {
        if a[i] != b[i] {
            return false;
        }
        i = i + 1;
    }
    assert(a@ =~= b@);
    true
}

fn selects_exec(sel: &ProbeSelector, c: &ProbeCandidate) -> (r: bool)
    ensures
        r == selects(*sel, *c),
{
    if c.vendor_id != sel.vendor_id || c.product_id != sel.product_id {
        return false;
    }
    match &sel.serial_number {
        None => true,
        Some(s) => match &c.serial_number {
            Some(t) => same_bytes(t.as_slice(), s.as_slice()),
            None => false,
        },
    }
}

/// The probe to open among `candidates`: the last one on the bus that
/// `sel` selects, or `ProbeNotFound` when none is.
pub fn select_probe(sel: &ProbeSelector, candidates: &Vec<ProbeCandidate>) -> (r: Result<
    usize,
    DebugProbeError,
>)
    ensures
        match r {
            Ok(i) => i < candidates@.len() && selects(*sel, candidates@[i as int]) && forall|
                j: int,
            |
                i < j < candidates@.len() ==> !selects(*sel, #[trigger] candidates@[j]),
            Err(e) => e == DebugProbeError::ProbeNotFound && forall|j: int|
                0 <= j < candidates@.len() ==> !selects(*sel, #[trigger] candidates@[j]),
        },
{
    let mut found: Option<usize> = None;
    let mut i: usize = 0;
    while i < candidates.len()
        invariant
            i <= candidates@.len(),
            match found {
                Some(k) => k < i && selects(*sel, candidates@[k as int]) && forall|j: int|
                    k < j < i ==> !selects(*sel, #[trigger] candidates@[j]),
                None => forall|j: int| 0 <= j < i ==> !selects(*sel, #[trigger] candidates@[j]),
            },
        decreases candidates@.len() - i,
    {
        if selects_exec(sel, &candidates[i]) {
            found = Some(i);
        }
        i = i + 1;
    }
    match found {
        Some(k) => Ok(k),
        None => Err(DebugProbeError::ProbeNotFound),
    }
}

/// TMS and TDI that reset a JTAG chain and enter Run-Test/Idle: five clocks
/// with TMS high, then one low.
pub fn jtag_reset_sequence() -> (r: (Vec<bool>, Vec<bool>))
    ensures
        r.0@ == seq![true, true, true, true, true, false],
        r.1@ == repeat(false, 6),
{
    let tms = vec![true, true, true, true, true, false];
    let tdi = vec![false, false, false, false, false, false];
    assert(tms@ =~= seq![true, true, true, true, true, false]);
    assert(tdi@ =~= repeat(false, 6));
    (tms, tdi)
}

} // verus!
