//! Guards of critical sections. While a guard is held, interrupts of the local
//! CPU, preemption by the kernel, or both, are off.
use vstd::prelude::*;

verus! {

/// What the end of a section without preemption leads to.
#[derive(Clone, Copy, Debug, PartialEq, Eq, Structural)]
pub enum PreemptExit {
    /// The scheduler may run at once.
    Task,
    /// Interrupts are off; the scheduler has to wait.
    Deferred,
    /// The scheduler may run before the interrupt returns, which keeps
    /// interrupts off.
    IrqReturn,
}

/// One thing that a guard does to the CPU.
#[derive(Clone, Copy, Debug, PartialEq, Eq, Structural)]
pub enum GuardStep {
    DisablePreempt,
    EnablePreempt,
    EnablePreemptFromIrqReturn,
    DisableIrqs,
    RestoreIrqs { state: usize },
}

/// What the guards see of the CPU that they run on. `preemptive` says whether
/// the kernel can be preempted at all; `last_exit` is what the last end of a
/// section without preemption led to. `previous_step` and `last_step` are the
/// last two things that guards did, in that order.
#[derive(Clone, Copy, Debug, PartialEq, Eq, Structural)]
pub struct LocalCpu {
    pub irqs_enabled: bool,
    pub preempt_depth: u64,
    pub preemptive: bool,
    pub last_exit: Option<PreemptExit>,
    pub previous_step: Option<GuardStep>,
    pub last_step: Option<GuardStep>,
}

/// How the kernel turns preemption off and on.
pub trait KernelGuardIf {
    spec fn depth(&self) -> int;

    /// Whether preemption can be turned off once more.
    spec fn can_disable(&self) -> bool;

    /// Turns preemption on from a task. The scheduler is put off while
    /// interrupts are off.
    fn enable_preempt(&mut self)
        requires
            old(self).depth() > 0,
        ensures
            final(self).depth() == old(self).depth() - 1,
    ;

    /// Turns preemption on where an interrupt returns.
    fn enable_preempt_from_irq_return(&mut self)
        requires
            old(self).depth() > 0,
        ensures
            final(self).depth() == old(self).depth() - 1,
    ;

    /// Turns preemption off.
    fn disable_preempt(&mut self)
        requires
            old(self).can_disable(),
        ensures
            final(self).depth() == old(self).depth() + 1,
    ;
}

impl LocalCpu {
    pub fn new(irqs_enabled: bool, preemptive: bool) -> (cpu: Self)
        ensures
            cpu == (LocalCpu {
                irqs_enabled,
                preempt_depth: 0,
                preemptive,
                last_exit: None,
                previous_step: None,
                last_step: None,
            }),
    {
        LocalCpu {
            irqs_enabled,
            preempt_depth: 0,
            preemptive,
            last_exit: None,
            previous_step: None,
            last_step: None,
        }
    }

    /// The CPU after a guard did one more thing.
    pub open spec fn stepped(self, step: GuardStep) -> LocalCpu {
        LocalCpu { previous_step: self.last_step, last_step: Some(step), ..self }
    }

    fn note(&mut self, step: GuardStep)
        ensures
            *final(self) == old(self).stepped(step),
    {
        self.previous_step = self.last_step;
        self.last_step = Some(step);
    }

    /// The CPU with preemption turned on once, and what that leads to when it
    /// was the last time.
    pub open spec fn preempt_enabled(self, exit: PreemptExit) -> LocalCpu {
        LocalCpu {
            preempt_depth: (self.preempt_depth - 1) as u64,
            last_exit: if self.preempt_depth == 1 {
                Some(exit)
            } else {
                self.last_exit
            },
            ..self
        }.stepped(
            if exit == PreemptExit::IrqReturn {
                GuardStep::EnablePreemptFromIrqReturn
            } else {
                GuardStep::EnablePreempt
            },
        )
    }

    /// What the end of a section in a task leads to.
    pub open spec fn task_exit(self) -> PreemptExit {
        if self.irqs_enabled {
            PreemptExit::Task
        } else {
            PreemptExit::Deferred
        }
    }

    /// The CPU in a section without preemption, if the kernel has any.
    pub open spec fn sheltered(self) -> LocalCpu {
        if self.preemptive {
            LocalCpu { preempt_depth: (self.preempt_depth + 1) as u64, ..self }.stepped(
                GuardStep::DisablePreempt,
            )
        } else {
            self
        }
    }

    /// The CPU after a section without preemption.
    pub open spec fn unsheltered(self, exit: PreemptExit) -> LocalCpu {
        if self.preemptive {
            self.preempt_enabled(exit)
        } else {
            self
        }
    }

    /// Whether one more section without preemption can begin.
    pub open spec fn has_room(self) -> bool {
        self.preemptive ==> self.preempt_depth < u64::MAX
    }

    /// Whether a section without preemption can end.
    pub open spec fn in_shelter(self) -> bool {
        self.preemptive ==> self.preempt_depth > 0
    }

    /// Interrupts and the depth of sections are those of another CPU.
    pub open spec fn stands_as(self, other: LocalCpu) -> bool {
        &&& self.irqs_enabled == other.irqs_enabled
        &&& self.preempt_depth == other.preempt_depth
        &&& self.preemptive == other.preemptive
    }

    /// The CPU with its interrupts off.
    pub open spec fn muted(self) -> LocalCpu {
        LocalCpu { irqs_enabled: false, ..self }.stepped(GuardStep::DisableIrqs)
    }

    /// The CPU with its interrupts as they were saved.
    pub open spec fn restored(self, state: usize) -> LocalCpu {
        LocalCpu { irqs_enabled: state != 0, ..self }.stepped(GuardStep::RestoreIrqs { state })
    }

    /// The state of the interrupts, to be saved.
    pub open spec fn irq_state(self) -> usize {
        if self.irqs_enabled {
            1
        } else {
            0
        }
    }

    /// Turns interrupts off and says how they were.
    pub fn local_irq_save_and_disable(&mut self) -> (state: usize)
        ensures
            state == old(self).irq_state(),
            *final(self) == old(self).muted(),
    {
        let state: usize = if self.irqs_enabled {
            1
        } else {
            0
        };
        self.irqs_enabled = false;
        self.note(GuardStep::DisableIrqs);
        state
    }

    /// Sets interrupts as they were.
    pub fn local_irq_restore(&mut self, state: usize)
        ensures
            *final(self) == old(self).restored(state),
    {
        self.irqs_enabled = state != 0;
        self.note(GuardStep::RestoreIrqs { state });
    }

    fn end_section(&mut self, exit: PreemptExit)
        requires
            old(self).preempt_depth > 0,
        ensures
            *final(self) == old(self).preempt_enabled(exit),
    {
        if self.preempt_depth == 1 {
            self.last_exit = Some(exit);
        }
        self.preempt_depth = self.preempt_depth - 1;
        self.note(
            if exit == PreemptExit::IrqReturn {
                GuardStep::EnablePreemptFromIrqReturn
            } else {
                GuardStep::EnablePreempt
            },
        );
    }
}

impl KernelGuardIf for LocalCpu {
    open spec fn depth(&self) -> int {
        self.preempt_depth as int
    }

    open spec fn can_disable(&self) -> bool {
        self.preempt_depth < u64::MAX
    }

    fn enable_preempt(&mut self)
        ensures
            *final(self) == old(self).preempt_enabled(old(self).task_exit()),
    {
        let exit = if self.irqs_enabled {
            PreemptExit::Task
        } else {
            PreemptExit::Deferred
        };
        self.end_section(exit);
    }

    fn enable_preempt_from_irq_return(&mut self)
        ensures
            *final(self) == old(self).preempt_enabled(PreemptExit::IrqReturn),
    {
        self.end_section(PreemptExit::IrqReturn);
    }

    fn disable_preempt(&mut self)
        ensures
            *final(self) == (LocalCpu {
                preempt_depth: (old(self).preempt_depth + 1) as u64,
                ..*old(self)
            }).stepped(GuardStep::DisablePreempt),
    {
        self.preempt_depth = self.preempt_depth + 1;
        self.note(GuardStep::DisablePreempt);
    }
}

/// What all guards have in common: how a section begins and how it ends.
pub trait BaseGuard: Sized {
    /// What is saved while the section lasts.
    type State;

    /// Whether a section can begin.
    spec fn can_enter(cpu: LocalCpu) -> bool;

    /// The CPU in the section, and what was saved.
    spec fn entered(cpu: LocalCpu) -> (LocalCpu, Self::State);

    /// Whether a section can end.
    spec fn can_leave(cpu: LocalCpu) -> bool;

    /// The CPU after the section.
    spec fn left(cpu: LocalCpu, state: Self::State) -> LocalCpu;

    /// Whether locks under this guard are watched for their order.
    spec fn tracked_for_order() -> bool;

    /// Begins a section.
    fn acquire(cpu: &mut LocalCpu) -> (state: Self::State)
        requires
            Self::can_enter(*old(cpu)),
        ensures
            (*final(cpu), state) == Self::entered(*old(cpu)),
    ;

    /// Ends a section.
    fn release(cpu: &mut LocalCpu, state: Self::State)
        requires
            Self::can_leave(*old(cpu)),
        ensures
            *final(cpu) == Self::left(*old(cpu), state),
    ;

    /// Whether locks under this guard are watched for their order.
    fn lockdep_enabled() -> (enabled: bool)
        ensures
            enabled == Self::tracked_for_order(),
    ;
}

/// A guard that does nothing.
#[derive(Debug)]
pub struct NoOp;

/// A guard that turns the interrupts of the local CPU off.
#[derive(Debug)]
pub struct IrqSave {
    pub state: usize,
}

/// A guard against preemption whose end is that of an interrupt.
#[derive(Debug)]
pub struct IrqReturnPreemptGuard;

/// A guard that turns preemption off.
#[derive(Debug)]
pub struct NoPreempt;

/// A guard that turns preemption off and then interrupts, and both on again in
/// the other order.
#[derive(Debug)]
pub struct NoPreemptIrqSave {
    pub state: usize,
}

impl BaseGuard for NoOp {
    type State = ();

    open spec fn can_enter(cpu: LocalCpu) -> bool {
        true
    }

    open spec fn entered(cpu: LocalCpu) -> (LocalCpu, ()) {
        (cpu, ())
    }

    open spec fn can_leave(cpu: LocalCpu) -> bool {
        true
    }

    open spec fn left(cpu: LocalCpu, state: ()) -> LocalCpu {
        cpu
    }

    open spec fn tracked_for_order() -> bool {
        false
    }

    fn acquire(cpu: &mut LocalCpu) -> (state: ()) {
    }

    fn release(cpu: &mut LocalCpu, state: ()) {
    }

    fn lockdep_enabled() -> (enabled: bool) {
        false
    }
}

impl BaseGuard for IrqSave {
    type State = usize;

    open spec fn can_enter(cpu: LocalCpu) -> bool {
        true
    }

    open spec fn entered(cpu: LocalCpu) -> (LocalCpu, usize) {
        (cpu.muted(), cpu.irq_state())
    }

    open spec fn can_leave(cpu: LocalCpu) -> bool {
        true
    }

    open spec fn left(cpu: LocalCpu, state: usize) -> LocalCpu {
        cpu.restored(state)
    }

    open spec fn tracked_for_order() -> bool {
        false
    }

    fn acquire(cpu: &mut LocalCpu) -> (state: usize) {
        cpu.local_irq_save_and_disable()
    }

    fn release(cpu: &mut LocalCpu, state: usize) {
        cpu.local_irq_restore(state);
    }

    fn lockdep_enabled() -> (enabled: bool) {
        false
    }
}

impl BaseGuard for NoPreempt {
    type State = ();

    open spec fn can_enter(cpu: LocalCpu) -> bool {
        cpu.has_room()
    }

    open spec fn entered(cpu: LocalCpu) -> (LocalCpu, ()) {
        (cpu.sheltered(), ())
    }

    open spec fn can_leave(cpu: LocalCpu) -> bool {
        cpu.in_shelter()
    }

    open spec fn left(cpu: LocalCpu, state: ()) -> LocalCpu {
        cpu.unsheltered(cpu.task_exit())
    }

    open spec fn tracked_for_order() -> bool {
        true
    }

    fn acquire(cpu: &mut LocalCpu) -> (state: ()) {
        if cpu.preemptive {
            cpu.disable_preempt();
        }
    }

    fn release(cpu: &mut LocalCpu, state: ()) {
        if cpu.preemptive {
            cpu.enable_preempt();
        }
    }

    fn lockdep_enabled() -> (enabled: bool) {
        true
    }
}

impl BaseGuard for NoPreemptIrqSave {
    type State = usize;

    open spec fn can_enter(cpu: LocalCpu) -> bool {
        cpu.has_room()
    }

    open spec fn entered(cpu: LocalCpu) -> (LocalCpu, usize) {
        (cpu.sheltered().muted(), cpu.irq_state())
    }

    open spec fn can_leave(cpu: LocalCpu) -> bool {
        cpu.in_shelter()
    }

    open spec fn left(cpu: LocalCpu, state: usize) -> LocalCpu {
        let heard = cpu.restored(state);
        heard.unsheltered(heard.task_exit())
    }

    open spec fn tracked_for_order() -> bool {
        true
    }

    fn acquire(cpu: &mut LocalCpu) -> (state: usize) {
        if cpu.preemptive {
            cpu.disable_preempt();
        }
        cpu.local_irq_save_and_disable()
    }

    fn release(cpu: &mut LocalCpu, state: usize) {
        cpu.local_irq_restore(state);
        if cpu.preemptive {
            cpu.enable_preempt();
        }
    }

    fn lockdep_enabled() -> (enabled: bool) {
        true
    }
}

impl NoOp {
    pub fn new() -> (guard: Self)
        ensures
            guard == NoOp,
    {
        NoOp
    }
}

impl IrqSave {
    /// Turns interrupts off until the guard is let go.
    pub fn new(cpu: &mut LocalCpu) -> (guard: Self)
        ensures
            guard == (IrqSave { state: old(cpu).irq_state() }),
            *final(cpu) == old(cpu).muted(),
    {
        IrqSave { state: Self::acquire(cpu) }
    }

    /// Lets the guard go.
    pub fn end(self, cpu: &mut LocalCpu)
        ensures
            *final(cpu) == old(cpu).restored(self.state),
    {
        Self::release(cpu, self.state);
    }

    /// Turns preemption off for what an interrupt does before it returns.
    /// Interrupts stay off meanwhile.
    pub fn disable_preempt_for_irq_return(&mut self, cpu: &mut LocalCpu) -> (guard: IrqReturnPreemptGuard)
        requires
            old(cpu).has_room(),
        ensures
            *final(self) == *old(self),
            *final(cpu) == old(cpu).sheltered(),
    {
        NoPreempt::acquire(cpu);
        IrqReturnPreemptGuard
    }
}

impl IrqReturnPreemptGuard {
    /// Lets the guard go: the scheduler may run before the interrupt returns.
    pub fn end(self, cpu: &mut LocalCpu)
        requires
            old(cpu).in_shelter(),
        ensures
            *final(cpu) == old(cpu).unsheltered(PreemptExit::IrqReturn),
    {
        if cpu.preemptive {
            cpu.enable_preempt_from_irq_return();
        }
    }
}

impl NoPreempt {
    /// Turns preemption off until the guard is let go.
    pub fn new(cpu: &mut LocalCpu) -> (guard: Self)
        requires
            old(cpu).has_room(),
        ensures
            *final(cpu) == old(cpu).sheltered(),
    {
        Self::acquire(cpu);
        NoPreempt
    }

    /// Lets the guard go.
    pub fn end(self, cpu: &mut LocalCpu)
        requires
            old(cpu).in_shelter(),
        ensures
            *final(cpu) == old(cpu).unsheltered(old(cpu).task_exit()),
    {
        Self::release(cpu, ());
    }
}

impl NoPreemptIrqSave {
    /// Turns preemption and then interrupts off until the guard is let go.
    pub fn new(cpu: &mut LocalCpu) -> (guard: Self)
        requires
            old(cpu).has_room(),
        ensures
            guard == (NoPreemptIrqSave { state: old(cpu).irq_state() }),
            *final(cpu) == old(cpu).sheltered().muted(),
    {
        NoPreemptIrqSave { state: Self::acquire(cpu) }
    }

    /// Lets the guard go.
    pub fn end(self, cpu: &mut LocalCpu)
        requires
            old(cpu).in_shelter(),
        ensures
            *final(cpu) == Self::left(*old(cpu), self.state),
    {
        Self::release(cpu, self.state);
    }
}

/// Beginning and ending a section of any kind leaves interrupts and the depth
/// of sections as they were.
pub proof fn sections_nest(cpu: LocalCpu)
    requires
        cpu.has_room(),
    ensures
        NoOp::left(NoOp::entered(cpu).0, NoOp::entered(cpu).1) == cpu,
        IrqSave::left(IrqSave::entered(cpu).0, IrqSave::entered(cpu).1).stands_as(cpu),
        ({
            let (inside, state) = NoPreempt::entered(cpu);
            NoPreempt::can_leave(inside) && NoPreempt::left(inside, state).stands_as(cpu)
        }),
        ({
            let (inside, state) = NoPreemptIrqSave::entered(cpu);
            NoPreemptIrqSave::can_leave(inside) && NoPreemptIrqSave::left(inside, state).stands_as(
                cpu,
            )
        }),
{
}

/// A section without preemption and interrupts turns preemption off first and
/// interrupts second, which saves how they were; at its end interrupts are set
/// as they were first, and preemption is turned on second.
pub proof fn interrupts_are_off_inside(cpu: LocalCpu)
    requires
        cpu.preemptive,
        cpu.has_room(),
    ensures
        ({
            let (inside, state) = NoPreemptIrqSave::entered(cpu);
            let after = NoPreemptIrqSave::left(inside, state);
            &&& inside.previous_step == Some(GuardStep::DisablePreempt)
            &&& inside.last_step == Some(GuardStep::DisableIrqs)
            &&& !inside.irqs_enabled
            &&& inside.preempt_depth == cpu.preempt_depth + 1
            &&& state == cpu.irq_state()
            &&& after.previous_step == Some(GuardStep::RestoreIrqs { state })
            &&& after.last_step == Some(GuardStep::EnablePreempt)
        }),
{
}

/// In a task, the scheduler is never entered while interrupts are off: the end
/// of the outermost section without preemption puts it off then.
pub proof fn muted_sections_defer(cpu: LocalCpu)
    requires
        cpu.preemptive,
        cpu.preempt_depth == 1,
        !cpu.irqs_enabled,
    ensures
        NoPreempt::left(cpu, ()).last_exit == Some(PreemptExit::Deferred),
        !NoPreempt::left(cpu, ()).irqs_enabled,
{
}

/// The end of the outermost section of an interrupt lets the scheduler run
/// before the interrupt returns, and interrupts stay off.
pub proof fn irq_returns_schedule_muted(cpu: LocalCpu)
    requires
        cpu.preemptive,
        cpu.preempt_depth == 0,
    ensures
        ({
            let after = cpu.muted().sheltered().unsheltered(PreemptExit::IrqReturn);
            after.last_exit == Some(PreemptExit::IrqReturn) && !after.irqs_enabled
                && after.preempt_depth == 0
        }),
{
}

} // verus!
