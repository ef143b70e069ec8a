//! A debug session: the attach protocol, and the table of cores behind it.
//!
//! The session owns one slot per physical core. A core is reached only by
//! its index through [`Session::core_handle`], which tells the caller whether the
//! core's attach handshake still has to run; the handshake runs once.
use vstd::prelude::*;
use crate::error::DebugProbeError;
use crate::target::{architecture_of, Architecture, CoreType, Target, TargetSelector};

verus! {

/// How long the attach protocol waits for a core to halt, in milliseconds.
pub const HALT_TIMEOUT_MS: u32 = 100;

/// Whether the target is attached to with its reset line held.
#[derive(Clone, Copy, Debug, PartialEq, Eq, Structural)]
pub enum AttachMethod {
    Normal,
    UnderReset,
}

/// One step of the attach protocol, performed by the caller in order; the
/// first one that fails ends the attach, and no session is built.
#[derive(Clone, Copy, Debug, PartialEq, Eq, Structural)]
pub enum AttachStep {
    /// Runs the `debug_port_setup` hook on the uninitialised ARM interface.
    DebugPortSetup,
    /// Negotiates capabilities and version with the probe's ARM interface.
    InitializeArmInterface,
    /// Runs the `debug_core_start` hook on access port 0.
    DebugCoreStart,
    /// Runs the `reset_catch_set` hook.
    ResetCatchSet,
    /// Releases the physical reset line.
    ResetDeassert,
    /// Polls the core until it is halted, for at most this many ms.
    WaitForCoreHalted(u32),
    /// Runs the `reset_catch_clear` hook.
    ResetCatchClear,
    /// Builds the RISC-V communication interface.
    CreateRiscvInterface,
    /// Halts core 0, waiting at most this many ms.
    HaltCore(u32),
    /// Clears all hardware breakpoints of the core with this index.
    ClearHwBreakpoints(usize),
}

/// Steps that clear the hardware breakpoints of cores `0..n`.
pub open spec fn clear_steps(n: nat) -> Seq<AttachStep> {
    Seq::new(n, |i: int| AttachStep::ClearHwBreakpoints(i as usize))
}

/// The attach protocol of a target with `n` cores: for ARM, debug-port
/// setup, interface initialisation and debug-core start, then when under
/// reset the reset-catch bracket around the release of reset; for RISC-V,
/// the interface and a halt of core 0. Every core's breakpoints are cleared
/// last.
pub open spec fn attach_plan_of(arch: Architecture, method: AttachMethod, n: nat) -> Seq<
    AttachStep,
> {
    match arch {
        Architecture::Arm => seq![
            AttachStep::DebugPortSetup,
            AttachStep::InitializeArmInterface,
            AttachStep::DebugCoreStart,
        ] + if method == AttachMethod::UnderReset {
            seq![
                AttachStep::ResetCatchSet,
                AttachStep::ResetDeassert,
                AttachStep::WaitForCoreHalted(HALT_TIMEOUT_MS),
                AttachStep::ResetCatchClear,
            ]
        } else {
            Seq::empty()
        } + clear_steps(n),
        Architecture::Riscv => seq![
            AttachStep::CreateRiscvInterface,
            AttachStep::HaltCore(HALT_TIMEOUT_MS),
        ] + clear_steps(n),
    }
}

/// The attach protocol for a target of architecture `arch` with
/// `num_cores` cores.
pub fn attach_plan(arch: Architecture, method: AttachMethod, num_cores: usize) -> (r: Vec<
    AttachStep,
>)
    ensures
        r@ == attach_plan_of(arch, method, num_cores as nat),
{
    let mut plan: Vec<AttachStep> = match arch {
        Architecture::Arm => {
            let mut p = vec![
                AttachStep::DebugPortSetup,
                AttachStep::InitializeArmInterface,
                AttachStep::DebugCoreStart,
            ];
            if method == AttachMethod::UnderReset {
                p.push(AttachStep::ResetCatchSet);
                p.push(AttachStep::ResetDeassert);
                p.push(AttachStep::WaitForCoreHalted(HALT_TIMEOUT_MS));
                p.push(AttachStep::ResetCatchClear);
            }
            p
        },
        Architecture::Riscv => vec![
            AttachStep::CreateRiscvInterface,
            AttachStep::HaltCore(HALT_TIMEOUT_MS),
        ],
    };
    let ghost head = plan@;
    let mut i: usize = 0;
    while i < num_cores
        invariant
            i <= num_cores,
            plan@ == head + clear_steps(i as nat),
        decreases num_cores - i,
    {
        plan.push(AttachStep::ClearHwBreakpoints(i));
        i = i + 1;
        assert(plan@ =~= head + clear_steps(i as nat));
    }
    assert(plan@ =~= attach_plan_of(arch, method, num_cores as nat));
    plan
}

/// In an ARM attach under reset, the vector catch is armed strictly before
/// the reset line is released, and disarmed strictly after the core was
/// seen halted; each of these steps happens exactly once.
pub proof fn lemma_reset_catch_order(n: nat)
    ensures
        ({
            let p = attach_plan_of(Architecture::Arm, AttachMethod::UnderReset, n);
            &&& p[3] == AttachStep::ResetCatchSet
            &&& p[4] == AttachStep::ResetDeassert
            &&& p[5] == AttachStep::WaitForCoreHalted(HALT_TIMEOUT_MS)
            &&& p[6] == AttachStep::ResetCatchClear
            &&& forall|i: int|
                0 <= i < p.len() && #[trigger] p[i] == AttachStep::ResetCatchSet ==> i == 3
            &&& forall|i: int|
                0 <= i < p.len() && #[trigger] p[i] == AttachStep::ResetDeassert ==> i == 4
            &&& forall|i: int| 0 <= i < p.len() && #[trigger] p[i] is WaitForCoreHalted ==> i == 5
            &&& forall|i: int|
                0 <= i < p.len() && #[trigger] p[i] == AttachStep::ResetCatchClear ==> i == 6
        }),
{
    let p = attach_plan_of(Architecture::Arm, AttachMethod::UnderReset, n);
    assert(forall|i: int| 7 <= i < p.len() ==> p[i] == clear_steps(n)[i - 7]);
}

/// Where a core is in its life: not yet attached, attached by its
/// handshake, or in use through its cached state.
#[derive(Clone, Copy, Debug, PartialEq, Eq, Structural)]
pub enum CoreStatus {
    Unattached,
    Attached,
    Active,
}

/// A slot of the session's core table.
#[derive(Clone, Copy, Debug, PartialEq, Eq, Structural)]
pub struct CoreSlot {
    pub core_type: CoreType,
    pub status: CoreStatus,
}

/// What [`Session::core_handle`] grants for a core index.
#[derive(Clone, Copy, Debug, PartialEq, Eq, Structural)]
pub enum CoreAccess {
    /// The core's attach handshake must run now; report success with
    /// [`Session::core_attached`].
    Attach(usize),
    /// The core is attached; its cached state is in use.
    Ready(usize),
}

/// Failures of session-level operations.
#[derive(Clone, Copy, Debug, PartialEq, Eq, Structural)]
pub enum SessionError {
    /// No core has this index.
    CoreNotFound(usize),
    /// The operation needs an ARM target.
    ArchitectureRequired,
    /// Auto-detection found no chip.
    ChipNotFound,
    /// This step of the attach protocol failed with this error.
    AttachFailed(AttachStep, DebugProbeError),
}

/// The table after asking for core `n`, and the answer.
pub open spec fn core_of(slots: Seq<CoreSlot>, n: usize) -> (Seq<CoreSlot>, Result<
    CoreAccess,
    SessionError,
>) {
    if n >= slots.len() {
        (slots, Err(SessionError::CoreNotFound(n)))
    } else if slots[n as int].status == CoreStatus::Unattached {
        (slots, Ok(CoreAccess::Attach(n)))
    } else {
        (
            slots.update(n as int, CoreSlot { status: CoreStatus::Active, ..slots[n as int] }),
            Ok(CoreAccess::Ready(n)),
        )
    }
}

/// The table after core `n`'s attach handshake succeeded.
pub open spec fn attached_of(slots: Seq<CoreSlot>, n: usize) -> Seq<CoreSlot> {
    if n < slots.len() && slots[n as int].status == CoreStatus::Unattached {
        slots.update(n as int, CoreSlot { status: CoreStatus::Attached, ..slots[n as int] })
    } else {
        slots
    }
}

/// An active debug session over one probe.
pub struct Session {
    target: Target,
    architecture: Architecture,
    cores: Vec<CoreSlot>,
}

impl Session {
    /// The core table.
    pub closed spec fn slots(&self) -> Seq<CoreSlot> {
        self.cores@
    }

    /// The architecture of the attached interface.
    pub closed spec fn arch(&self) -> Architecture {
        self.architecture
    }

    /// The target of the session.
    pub closed spec fn target_spec(&self) -> Target {
        self.target
    }

    /// Opens a session over `target`: the attach protocol to run, step by
    /// step, before the session exists.
    pub fn new(target: Target, method: AttachMethod) -> (r: AttachRun)
        ensures
            r.wf(),
            r.plan() == attach_plan_of(architecture_of(target.core_type), method, 1),
            r.position() == 0,
            r.target_spec() == target,
    {
        let plan = attach_plan(target.architecture(), method, 1);
        AttachRun { steps: StepRun { plan, next: 0 }, target }
    }

    /// The session over `target` once its attach protocol has completed:
    /// one core, whose attach ran as part of the protocol.
    fn attached(target: Target) -> (r: Session)
        ensures
            r.slots() == seq![
                CoreSlot { core_type: target.core_type, status: CoreStatus::Attached },
            ],
            r.arch() == architecture_of(target.core_type),
            r.target_spec() == target,
    {
        let architecture = target.architecture();
        let slot = CoreSlot { core_type: target.core_type, status: CoreStatus::Attached };
        let r = Session { target, architecture, cores: vec![slot] };
        assert(r.slots() =~= seq![slot]);
        r
    }

    /// Asks for core `n`: a core whose handshake has not run yet must be
    /// attached by the caller; any other is handed out from its cached state.
    pub fn core_handle(&mut self, n: usize) -> (r: Result<CoreAccess, SessionError>)
        ensures
            (final(self).slots(), r) == core_of(old(self).slots(), n),
            final(self).arch() == old(self).arch(),
            final(self).target_spec() == old(self).target_spec(),
    {
        if n >= self.cores.len() {
            return Err(SessionError::CoreNotFound(n));
        }
        let slot = self.cores[n];
        match slot.status {
            CoreStatus::Unattached => Ok(CoreAccess::Attach(n)),
            _ => {
                self.cores.set(n, CoreSlot { core_type: slot.core_type, status: CoreStatus::Active });
                Ok(CoreAccess::Ready(n))
            },
        }
    }

    /// Records that core `n`'s attach handshake succeeded.
    pub fn core_attached(&mut self, n: usize)
        ensures
            final(self).slots() == attached_of(old(self).slots(), n),
            final(self).arch() == old(self).arch(),
            final(self).target_spec() == old(self).target_spec(),
    {
        if n < self.cores.len() {
            let slot = self.cores[n];
            if slot.status == CoreStatus::Unattached {
                self.cores.set(
                    n,
                    CoreSlot { core_type: slot.core_type, status: CoreStatus::Attached },
                );
            }
        }
    }

    /// The cores with their indices and types.
    pub fn list_cores(&self) -> (r: Vec<(usize, CoreType)>)
        ensures
            r@.len() == self.slots().len(),
            forall|i: int| 0 <= i < r@.len() ==> #[trigger] r@[i] == (i as usize, self.slots()[i].core_type),
    {
        let mut out: Vec<(usize, CoreType)> = Vec::new();
        let mut i: usize = 0;
        while i < self.cores.len()
            invariant
                i <= self.cores@.len(),
                out@.len() == i,
                forall|j: int| 0 <= j < i ==> #[trigger] out@[j] == (j as usize, self.cores@[j].core_type),
            decreases self.cores@.len() - i,
        {
            out.push((i, self.cores[i].core_type));
            i = i + 1;
        }
        out
    }

    /// The architecture of the attached interface.
    pub fn architecture(&self) -> (r: Architecture)
        ensures
            r == self.arch(),
    {
        self.architecture
    }

    /// The target of the session.
    pub fn target(&self) -> (r: &Target)
        ensures
            *r == self.target_spec(),
    {
        &self.target
    }

    /// Succeeds on an ARM session; operations on the ARM interface need one.
    pub fn require_arm(&self) -> (r: Result<(), SessionError>)
        ensures
            r == if self.arch() == Architecture::Arm {
                Ok::<(), SessionError>(())
            } else {
                Err(SessionError::ArchitectureRequired)
            },
    {
        match self.architecture {
            Architecture::Arm => Ok(()),
            Architecture::Riscv => Err(SessionError::ArchitectureRequired),
        }
    }

    /// Clears the hardware breakpoints of every core, in increasing order:
    /// the run of one clear step per core, which stops at the first failure.
    pub fn clear_all_hw_breakpoints(&self) -> (r: StepRun)
        requires
            self.slots().len() > 0,
        ensures
            r.wf(),
            r.plan() == clear_steps(self.slots().len()),
            r.position() == 0,
    {
        let mut out: Vec<AttachStep> = Vec::new();
        let mut i: usize = 0;
        while i < self.cores.len()
            invariant
                i <= self.cores@.len(),
                out@ == clear_steps(i as nat),
            decreases self.cores@.len() - i,
        {
            out.push(AttachStep::ClearHwBreakpoints(i));
            i = i + 1;
            assert(out@ =~= clear_steps(i as nat));
        }
        StepRun { plan: out, next: 0 }
    }
}

/// A run of steps that the caller performs one at a time, in order; the
/// first step that fails ends the run.
pub struct StepRun {
    plan: Vec<AttachStep>,
    next: usize,
}

/// What follows a step's outcome.
pub enum StepProgress {
    /// The next step is due.
    Next(StepRun),
    /// Every step succeeded.
    Finished,
    /// A step failed with this error; no later step runs.
    Failed(DebugProbeError),
}

impl StepRun {
    /// The steps of the run.
    pub closed spec fn plan(&self) -> Seq<AttachStep> {
        self.plan@
    }

    /// The index of the step that is due.
    pub closed spec fn position(&self) -> nat {
        self.next as nat
    }

    /// A step is due.
    pub closed spec fn wf(&self) -> bool {
        self.next < self.plan@.len()
    }

    /// The step that is due.
    pub fn next_step(&self) -> (r: AttachStep)
        requires
            self.wf(),
        ensures
            r == self.plan()[self.position() as int],
    {
        self.plan[self.next]
    }

    /// Takes the outcome of the step that was due: a failure ends the run
    /// with its error, success moves to the next step or finishes the run
    /// after the last one.
    pub fn report(self, outcome: Result<(), DebugProbeError>) -> (r: StepProgress)
        requires
            self.wf(),
        ensures
            match outcome {
                Err(e) => r == StepProgress::Failed(e),
                Ok(_) => if self.position() + 1 == self.plan().len() {
                    r is Finished
                } else {
                    r matches StepProgress::Next(n) && n.wf() && n.plan() == self.plan()
                        && n.position() == self.position() + 1
                },
            },
    {
        match outcome {
            Err(e) => StepProgress::Failed(e),
            Ok(_) => {
                if self.next == self.plan.len() - 1 {
                    StepProgress::Finished
                } else {
                    StepProgress::Next(StepRun { plan: self.plan, next: self.next + 1 })
                }
            },
        }
    }
}

/// The attach protocol of a session in progress: the steps to perform, and
/// the target the session will be over once every step succeeded.
pub struct AttachRun {
    steps: StepRun,
    target: Target,
}

/// What follows an attach step's outcome.
pub enum AttachProgress {
    /// The next step is due.
    Next(AttachRun),
    /// The attach ended: with the session, or with the error of the step
    /// that failed.
    Done(Result<Session, SessionError>),
}

impl AttachRun {
    /// The steps of the attach protocol.
    pub closed spec fn plan(&self) -> Seq<AttachStep> {
        self.steps.plan()
    }

    /// The index of the step that is due.
    pub closed spec fn position(&self) -> nat {
        self.steps.position()
    }

    /// A step is due.
    pub closed spec fn wf(&self) -> bool {
        self.steps.wf()
    }

    /// The target of the session being opened.
    pub closed spec fn target_spec(&self) -> Target {
        self.target
    }

    /// The step that is due.
    pub fn next_step(&self) -> (r: AttachStep)
        requires
            self.wf(),
        ensures
            r == self.plan()[self.position() as int],
    {
        self.steps.next_step()
    }

    /// Takes the outcome of the step that was due. A failure ends the attach
    /// with that error, naming the step, and no session; success moves to the next step, and
    /// after the last step gives the session, its one core attached.
    pub fn report(self, outcome: Result<(), DebugProbeError>) -> (r: AttachProgress)
        requires
            self.wf(),
        ensures
            match outcome {
                Err(e) => r matches AttachProgress::Done(Err(f)) && f == SessionError::AttachFailed(
                    self.plan()[self.position() as int],
                    e,
                ),
                Ok(_) => if self.position() + 1 == self.plan().len() {
                    r matches AttachProgress::Done(Ok(s)) && s.slots() == seq![
                        CoreSlot {
                            core_type: self.target_spec().core_type,
                            status: CoreStatus::Attached,
                        },
                    ] && s.arch() == architecture_of(self.target_spec().core_type)
                        && s.target_spec() == self.target_spec()
                } else {
                    r matches AttachProgress::Next(n) && n.wf() && n.plan() == self.plan()
                        && n.position() == self.position() + 1 && n.target_spec()
                        == self.target_spec()
                },
            },
    {
        let step = self.steps.next_step();
        let AttachRun { steps, target } = self;
        match steps.report(outcome) {
            StepProgress::Failed(e) => AttachProgress::Done(Err(SessionError::AttachFailed(step, e))),
            StepProgress::Finished => AttachProgress::Done(Ok(Session::attached(target))),
            StepProgress::Next(n) => AttachProgress::Next(AttachRun { steps: n, target }),
        }
    }
}

/// Asking twice for a core, with its handshake reported in between when it
/// was asked for, runs that handshake at most once: exactly once, on the
/// first request, when the core was not attached yet. The second request is
/// served from the cached state.
pub proof fn lemma_core_attach_once(slots: Seq<CoreSlot>, n: usize)
    requires
        n < slots.len(),
    ensures
        ({
            let (s1, r1) = core_of(slots, n);
            let s1a = if r1 == Ok::<CoreAccess, SessionError>(CoreAccess::Attach(n)) {
                attached_of(s1, n)
            } else {
                s1
            };
            let (s2, r2) = core_of(s1a, n);
            &&& (r1 == Ok::<CoreAccess, SessionError>(CoreAccess::Attach(n))) == (
            slots[n as int].status == CoreStatus::Unattached)
            &&& r2 == Ok::<CoreAccess, SessionError>(CoreAccess::Ready(n))
            &&& s2[n as int].status == CoreStatus::Active
            &&& s2.len() == slots.len()
            &&& forall|i: int| 0 <= i < slots.len() && i != n ==> #[trigger] s2[i] == slots[i]
        }),
{
}

/// The identity of a chip, as read from its ROM table during detection.
#[derive(Clone, Copy, Debug, PartialEq, Eq, Structural)]
pub struct ChipInfo {
    /// JEP106 identity code of the manufacturer.
    pub manufacturer_id: u8,
    /// JEP106 continuation count of the manufacturer.
    pub manufacturer_cc: u8,
    /// Part number.
    pub part: u16,
}

/// How the target of a session is to be found.
#[derive(Clone, Debug)]
pub enum TargetLookup {
    /// Look the name up in the registry.
    ByName(String),
    /// Use this target.
    Given(Target),
    /// Look the detected chip up in the registry.
    ByChip(ChipInfo),
}

/// Decides how to find the target that `selector` names, where `detected`
/// is the chip that auto-detection found on the probe, if it ran and found
/// one.
pub fn get_target_from_selector(selector: TargetSelector, detected: Option<ChipInfo>) -> (r: Result<
    TargetLookup,
    SessionError,
>)
    ensures
        match selector {
            TargetSelector::Unspecified(name) => r matches Ok(TargetLookup::ByName(m)) && m@
                == name@,
            TargetSelector::Specified(t) => r matches Ok(TargetLookup::Given(u)) && u == t,
            TargetSelector::Auto => match detected {
                Some(c) => r == Ok::<TargetLookup, SessionError>(TargetLookup::ByChip(c)),
                None => r == Err::<TargetLookup, SessionError>(SessionError::ChipNotFound),
            },
        },
{
    match selector {
        TargetSelector::Unspecified(name) => Ok(TargetLookup::ByName(name)),
        TargetSelector::Specified(t) => Ok(TargetLookup::Given(t)),
        TargetSelector::Auto => match detected {
            Some(c) => Ok(TargetLookup::ByChip(c)),
            None => Err(SessionError::ChipNotFound),
        },
    }
}

} // verus!
