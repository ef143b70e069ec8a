//! Target descriptions: core types, architectures, and the hook tables that
//! the attach protocol runs.
use vstd::prelude::*;
use crate::codec::PortType;
use crate::error::DebugProbeError;

verus! {

/// Source of a target description, kept for diagnostics.
#[derive(Clone, Copy, Debug, PartialEq, Eq, Structural)]
pub enum TargetDescriptionSource {
    /// A generic description of a core type, without flash or memory map.
    Generic,
    /// A description built into the library.
    BuiltIn,
    /// A description loaded at run time.
    External,
}

/// The instruction-set architecture of a target.
#[derive(Clone, Copy, Debug, PartialEq, Eq, Structural)]
pub enum Architecture {
    Arm,
    Riscv,
}

/// Type of a supported core.
#[derive(Clone, Copy, Debug, PartialEq, Eq, Structural)]
pub enum CoreType {
    /// ARM Cortex M0
    M0,
    /// ARM Cortex M3
    M3,
    /// ARM Cortex M4
    M4,
    /// ARM Cortex M33
    M33,
    /// ARM Cortex M7
    M7,
    /// RISC-V
    Riscv,
}

/// The architecture of a core type.
pub open spec fn architecture_of(c: CoreType) -> Architecture {
    match c {
        CoreType::Riscv => Architecture::Riscv,
        _ => Architecture::Arm,
    }
}

impl CoreType {
    /// The architecture of this core type.
    pub fn architecture(&self) -> (r: Architecture)
        ensures
            r == architecture_of(*self),
    {
        match self {
            CoreType::M0 => Architecture::Arm,
            CoreType::M3 => Architecture::Arm,
            CoreType::M33 => Architecture::Arm,
            CoreType::M4 => Architecture::Arm,
            CoreType::M7 => Architecture::Arm,
            CoreType::Riscv => Architecture::Riscv,
        }
    }
}

/// The description source of a target read from an outside file.
pub fn default_source() -> (r: TargetDescriptionSource)
    ensures
        r == TargetDescriptionSource::External,
{
    TargetDescriptionSource::External
}

/// The hook table that a target's attach protocol runs: the ARM debug
/// sequences, or none for RISC-V. It is chosen once, when the target is
/// built, and never changes.
#[derive(Clone, Copy, Debug, PartialEq, Eq, Structural)]
pub enum DebugSequence {
    Arm,
    Riscv,
}

/// The hook table of an architecture.
pub open spec fn sequence_for(a: Architecture) -> DebugSequence {
    match a {
        Architecture::Arm => DebugSequence::Arm,
        Architecture::Riscv => DebugSequence::Riscv,
    }
}

/// A complete target: a chip model with its core type.
#[derive(Clone, Debug)]
pub struct Target {
    /// The name of the target.
    pub name: String,
    /// The core type.
    pub core_type: CoreType,
    /// The hook table of the attach protocol.
    pub debug_sequence: DebugSequence,
    /// Where the description came from.
    pub source: TargetDescriptionSource,
}

impl Target {
    /// A target named `name` with a core of type `core_type`; its hook table
    /// follows from the core's architecture.
    pub fn new(name: String, core_type: CoreType, source: TargetDescriptionSource) -> (r: Target)
        ensures
            r.name@ == name@,
            r.core_type == core_type,
            r.debug_sequence == sequence_for(architecture_of(core_type)),
            r.source == source,
    {
        let debug_sequence = match core_type.architecture() {
            Architecture::Arm => DebugSequence::Arm,
            Architecture::Riscv => DebugSequence::Riscv,
        };
        Target { name, core_type, debug_sequence, source }
    }

    /// The architecture of the target.
    pub fn architecture(&self) -> (r: Architecture)
        ensures
            r == architecture_of(self.core_type),
    {
        self.core_type.architecture()
    }

    /// Where the target description came from.
    pub fn source(&self) -> (r: &TargetDescriptionSource)
        ensures
            *r == self.source,
    {
        &self.source
    }
}

/// How the target of a session is chosen.
#[derive(Clone, Debug)]
pub enum TargetSelector {
    /// By name, from the registry of known targets.
    Unspecified(String),
    /// A target given directly.
    Specified(Target),
    /// By reading identifying information from the target.
    Auto,
}

impl From<String> for TargetSelector {
    fn from(value: String) -> TargetSelector {
        TargetSelector::Unspecified(value)
    }
}

impl vstd::std_specs::convert::FromSpecImpl<String> for TargetSelector {
    open spec fn obeys_from_spec() -> bool {
        true
    }

    open spec fn from_spec(v: String) -> TargetSelector {
        TargetSelector::Unspecified(v)
    }
}

impl From<Target> for TargetSelector {
    fn from(target: Target) -> TargetSelector {
        TargetSelector::Specified(target)
    }
}

impl vstd::std_specs::convert::FromSpecImpl<Target> for TargetSelector {
    open spec fn obeys_from_spec() -> bool {
        true
    }

    open spec fn from_spec(v: Target) -> TargetSelector {
        TargetSelector::Specified(v)
    }
}

impl From<()> for TargetSelector {
    fn from(_value: ()) -> TargetSelector {
        TargetSelector::Auto
    }
}

impl vstd::std_specs::convert::FromSpecImpl<()> for TargetSelector {
    open spec fn obeys_from_spec() -> bool {
        true
    }

    open spec fn from_spec(v: ()) -> TargetSelector {
        TargetSelector::Auto
    }
}

/// Register and memory access through the currently bound access port.
pub trait DapAccess {
    /// Reads the register at `address` of `port`.
    fn read_register(&mut self, port: PortType, address: u16) -> Result<u32, DebugProbeError>;

    /// Writes `value` to the register at `address` of `port`.
    fn write_register(&mut self, port: PortType, address: u16, value: u32) -> Result<
        (),
        DebugProbeError,
    >;
}

/// The hooks of an ARM target's attach protocol, implemented per vendor.
pub trait ArmDebugSequence {
    /// Asserts the hardware reset.
    fn reset_hardware_assert<I: DapAccess>(&self, interface: &mut I) -> Result<
        (),
        DebugProbeError,
    >;

    /// Deasserts the hardware reset.
    fn reset_hardware_deassert<I: DapAccess>(&self, interface: &mut I) -> Result<
        (),
        DebugProbeError,
    >;

    /// Brings up the debug port, before the probe's ARM interface exists.
    fn debug_port_setup<I: DapAccess>(&self, interface: &mut I) -> Result<(), DebugProbeError>;

    /// Powers up the debug port.
    fn debug_port_start<I: DapAccess>(&self, interface: &mut I) -> Result<(), DebugProbeError>;

    /// Unlocks a locked device; most devices need nothing.
    fn debug_device_unlock<I: DapAccess>(&self, interface: &mut I) -> (r: Result<
        (),
        DebugProbeError,
    >) {
        Ok(())
    }

    /// Enables debugging of the core.
    fn debug_core_start<I: DapAccess>(&self, interface: &mut I) -> Result<(), DebugProbeError>;

    /// Starts recovery support; most devices need nothing.
    fn recover_support_start<I: DapAccess>(&self, interface: &mut I) -> (r: Result<
        (),
        DebugProbeError,
    >) {
        Ok(())
    }

    /// Arms a vector catch so that the core halts when it leaves reset.
    fn reset_catch_set<I: DapAccess>(&self, interface: &mut I) -> Result<(), DebugProbeError>;

    /// Disarms the vector catch of `reset_catch_set`.
    fn reset_catch_clear<I: DapAccess>(&self, interface: &mut I) -> Result<(), DebugProbeError>;

    /// Resets the whole system.
    fn reset_system<I: DapAccess>(&self, interface: &mut I) -> Result<(), DebugProbeError>;
}

} // verus!
