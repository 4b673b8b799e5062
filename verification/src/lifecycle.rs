//! Two-phase lifecycle protocol every physical core executes after the
//! excluded boot stage hands control over with a core identifier.
//!
//! Per core the protocol is `on_alive` once, then `on_run` forever: the
//! tracker below is the decision core of that protocol. Each core advances
//! `Parked -> Alive -> Running` and never moves back; entering the run
//! phase is granted only out of the `Alive` phase, so per core the
//! completion of `on_alive` strictly precedes the first `on_run`, while
//! across cores no ordering is imposed — only the peripheral guards
//! synchronize cores. `Running` is terminal: no event leaves it, the
//! structural form of `on_run` never returning.

use vstd::prelude::*;

verus! {

/// Where one core stands in the lifecycle protocol.
#[derive(Clone, Copy, PartialEq, Eq, Structural, Debug)]
pub enum CorePhase {
    /// The boot stage has not reported the core's `on_alive` as completed.
    Parked,
    /// `on_alive` has completed; `on_run` has not begun.
    Alive,
    /// The core is inside `on_run`, which never returns.
    Running,
}

/// A lifecycle fault: every one is a configuration error of the boot
/// wiring, surfaced loudly at setup time.
#[derive(Clone, Copy, PartialEq, Eq, Structural, Debug)]
pub enum LifecycleError {
    /// The core identifier is not one of `0..N-1`.
    UnknownCore,
    /// `on_alive` was reported twice for one core.
    AlreadyAlive,
    /// `on_run` was reported for a core whose `on_alive` has not completed,
    /// or that is already running.
    NotAlive,
}

/// One observation the boot collaborator reports to the tracker.
#[derive(Clone, Copy, PartialEq, Eq, Structural, Debug)]
pub enum LifecycleEvent {
    /// The core's `on_alive` callback returned.
    AliveCompleted(u32),
    /// The core entered its `on_run` callback.
    RunEntered(u32),
}

/// Whether an event succeeds in a given per-core phase state, and the
/// state after it. A failed event changes nothing: `on_alive` completes
/// only out of `Parked`, the run phase is entered only out of `Alive`, and
/// nothing ever leaves `Running`.
pub open spec fn spec_step(phases: Seq<CorePhase>, ev: LifecycleEvent) -> (Seq<CorePhase>, bool) {
    match ev {
        LifecycleEvent::AliveCompleted(c) => if c < phases.len() && phases[c as int]
            == CorePhase::Parked {
            (phases.update(c as int, CorePhase::Alive), true)
        } else {
            (phases, false)
        },
        LifecycleEvent::RunEntered(c) => if c < phases.len() && phases[c as int]
            == CorePhase::Alive {
            (phases.update(c as int, CorePhase::Running), true)
        } else {
            (phases, false)
        },
    }
}

/// The state after a whole sequence of reported events; a failed event
/// leaves the state as it was.
pub open spec fn run_events(phases: Seq<CorePhase>, evs: Seq<LifecycleEvent>) -> Seq<CorePhase>
    decreases evs.len(),
{
    if evs.len() == 0 {
        phases
    } else {
        run_events(spec_step(phases, evs[0]).0, evs.drop_first())
    }
}

/// The lifecycle state of all N physical cores, N fixed at configuration
/// time.
pub struct CoreLifecycle {
    /// One phase per core, indexed by core identifier.
    pub phases: Vec<CorePhase>,
}

impl CoreLifecycle {
    /// Invariant: there is at least one physical core.
    pub open spec fn wf(self) -> bool {
        self.phases@.len() >= 1
    }

    /// Number of physical cores.
    pub open spec fn core_count(self) -> int {
        self.phases@.len() as int
    }

    /// The phase core `core` is in.
    pub open spec fn phase(self, core: u32) -> CorePhase {
        self.phases@[core as int]
    }

    /// A fresh tracker: every core still parked.
    pub fn new(core_count: usize) -> (r: CoreLifecycle)
        requires
            1 <= core_count,
        ensures
            r.wf(),
            r.core_count() == core_count,
            forall|c: u32| c < core_count ==> r.phase(c) == CorePhase::Parked,
    {
        let mut phases: Vec<CorePhase> = Vec::new();
        let mut i: usize = 0;
        while i < core_count
            invariant
                phases@.len() == i,
                i <= core_count,
                forall|k: int| 0 <= k < i ==> phases@[k] == CorePhase::Parked,
            decreases core_count - i,
        {
            phases.push(CorePhase::Parked);
            i += 1;
        }
        CoreLifecycle { phases }
    }

    /// Number of physical cores.
    pub fn count(&self) -> (r: usize)
        ensures
            r == self.core_count(),
    {
        self.phases.len()
    }

    /// The phase of one core.
    pub fn phase_of(&self, core: u32) -> (r: CorePhase)
        requires
            core < self.core_count(),
        ensures
            r == self.phase(core),
    {
        self.phases[core as usize]
    }

    /// Records that `core` completed its `on_alive` callback, exactly once
    /// per core, following [`spec_step`] exactly.
    pub fn complete_alive(&mut self, core: u32) -> (r: Result<(), LifecycleError>)
        ensures
            final(self).phases@ == spec_step(
                old(self).phases@,
                LifecycleEvent::AliveCompleted(core),
            ).0,
            r is Ok <==> spec_step(old(self).phases@, LifecycleEvent::AliveCompleted(core)).1,
            core >= old(self).core_count() ==> r == Err::<(), LifecycleError>(
                LifecycleError::UnknownCore,
            ),
            core < old(self).core_count() && old(self).phase(core) != CorePhase::Parked ==> r
                == Err::<(), LifecycleError>(LifecycleError::AlreadyAlive),
            old(self).wf() ==> final(self).wf(),
    {
        let n = self.phases.len();
        if core as usize >= n {
            return Err(LifecycleError::UnknownCore);
        }
        match self.phases[core as usize] {
            CorePhase::Parked => {
                self.phases[core as usize] = CorePhase::Alive;
                Ok(())
            },
            _ => Err(LifecycleError::AlreadyAlive),
        }
    }

    /// Records that `core` entered its `on_run` callback, granted only out
    /// of the `Alive` phase, following [`spec_step`] exactly.
    pub fn enter_run(&mut self, core: u32) -> (r: Result<(), LifecycleError>)
        ensures
            final(self).phases@ == spec_step(
                old(self).phases@,
                LifecycleEvent::RunEntered(core),
            ).0,
            r is Ok <==> spec_step(old(self).phases@, LifecycleEvent::RunEntered(core)).1,
            core >= old(self).core_count() ==> r == Err::<(), LifecycleError>(
                LifecycleError::UnknownCore,
            ),
            core < old(self).core_count() && old(self).phase(core) != CorePhase::Alive ==> r
                == Err::<(), LifecycleError>(LifecycleError::NotAlive),
            old(self).wf() ==> final(self).wf(),
    {
        let n = self.phases.len();
        if core as usize >= n {
            return Err(LifecycleError::UnknownCore);
        }
        match self.phases[core as usize] {
            CorePhase::Alive => {
                self.phases[core as usize] = CorePhase::Running;
                Ok(())
            },
            _ => Err(LifecycleError::NotAlive),
        }
    }
}

/// Phase ordering, one step at a time: entering the run phase is granted
/// exactly for a core whose `on_alive` has completed and whose `on_run`
/// has not begun.
pub proof fn lemma_run_only_after_alive(phases: Seq<CorePhase>, core: u32)
    ensures
        spec_step(phases, LifecycleEvent::RunEntered(core)).1 <==> core < phases.len()
            && phases[core as int] == CorePhase::Alive,
{
}

/// `on_run` never returns: no event moves a running core anywhere else.
pub proof fn lemma_running_is_terminal(phases: Seq<CorePhase>, ev: LifecycleEvent, core: u32)
    requires
        core < phases.len(),
        phases[core as int] == CorePhase::Running,
    ensures
        spec_step(phases, ev).0[core as int] == CorePhase::Running,
        spec_step(phases, ev).0.len() == phases.len(),
{
}

/// `on_run` never returns, over whole histories: once a core runs, it
/// still runs after any further sequence of events.
pub proof fn lemma_running_never_left(phases: Seq<CorePhase>, evs: Seq<LifecycleEvent>, core: u32)
    requires
        core < phases.len(),
        phases[core as int] == CorePhase::Running,
    ensures
        run_events(phases, evs)[core as int] == CorePhase::Running,
        run_events(phases, evs).len() == phases.len(),
    decreases evs.len(),
{
    if evs.len() > 0 {
        lemma_running_is_terminal(phases, evs[0], core);
        lemma_running_never_left(spec_step(phases, evs[0]).0, evs.drop_first(), core);
    }
}

/// The history a core's phase implies: an alive core completed `on_alive`
/// at some event, and a running core completed `on_alive` strictly before
/// it entered `on_run`.
pub proof fn lemma_phase_history(phases: Seq<CorePhase>, evs: Seq<LifecycleEvent>, core: u32)
    requires
        core < phases.len(),
    ensures
        run_events(phases, evs).len() == phases.len(),
        run_events(phases, evs)[core as int] == CorePhase::Alive && phases[core as int]
            == CorePhase::Parked ==> exists|i: int|
            0 <= i < evs.len() && evs[i] == LifecycleEvent::AliveCompleted(core),
        run_events(phases, evs)[core as int] == CorePhase::Running && phases[core as int]
            == CorePhase::Alive ==> exists|j: int|
            0 <= j < evs.len() && evs[j] == LifecycleEvent::RunEntered(core),
        run_events(phases, evs)[core as int] == CorePhase::Running && phases[core as int]
            == CorePhase::Parked ==> exists|i: int, j: int|
            0 <= i < j < evs.len() && evs[i] == LifecycleEvent::AliveCompleted(core) && evs[j]
                == LifecycleEvent::RunEntered(core),
    decreases evs.len(),
{
    if evs.len() > 0 {
        let s1 = spec_step(phases, evs[0]).0;
        let rest = evs.drop_first();
        lemma_phase_history(s1, rest, core);
        let t = run_events(phases, evs);
        if t[core as int] == CorePhase::Alive && phases[core as int] == CorePhase::Parked {
            if s1[core as int] == CorePhase::Parked {
                let i0 = choose|i: int|
                    0 <= i < rest.len() && rest[i] == LifecycleEvent::AliveCompleted(core);
                assert(evs[i0 + 1] == LifecycleEvent::AliveCompleted(core));
            } else {
                assert(evs[0] == LifecycleEvent::AliveCompleted(core));
            }
        }
        if t[core as int] == CorePhase::Running && phases[core as int] == CorePhase::Alive {
            if s1[core as int] == CorePhase::Alive {
                let j0 = choose|j: int|
                    0 <= j < rest.len() && rest[j] == LifecycleEvent::RunEntered(core);
                assert(evs[j0 + 1] == LifecycleEvent::RunEntered(core));
            } else {
                assert(evs[0] == LifecycleEvent::RunEntered(core));
            }
        }
        if t[core as int] == CorePhase::Running && phases[core as int] == CorePhase::Parked {
            if s1[core as int] == CorePhase::Parked {
                let (i0, j0) = choose|i: int, j: int|
                    0 <= i < j < rest.len() && rest[i] == LifecycleEvent::AliveCompleted(core)
                        && rest[j] == LifecycleEvent::RunEntered(core);
                assert(evs[i0 + 1] == LifecycleEvent::AliveCompleted(core));
                assert(evs[j0 + 1] == LifecycleEvent::RunEntered(core));
                assert(0 <= i0 + 1 < j0 + 1 < evs.len());
            } else {
                assert(evs[0] == LifecycleEvent::AliveCompleted(core));
                let j0 = choose|j: int|
                    0 <= j < rest.len() && rest[j] == LifecycleEvent::RunEntered(core);
                assert(evs[j0 + 1] == LifecycleEvent::RunEntered(core));
                assert(0 <= 0 < j0 + 1 < evs.len());
            }
        }
    }
}

/// Lifecycle ordering: for every core of an initially parked system that
/// ends up running, the event completing its `on_alive` stands strictly
/// before the event entering its `on_run` — per core, `on_alive`
/// completion precedes the first `on_run` invocation. Across cores no
/// ordering is claimed.
pub proof fn lemma_alive_precedes_run(phases: Seq<CorePhase>, evs: Seq<LifecycleEvent>, core: u32)
    requires
        core < phases.len(),
        phases[core as int] == CorePhase::Parked,
        run_events(phases, evs)[core as int] == CorePhase::Running,
    ensures
        exists|i: int, j: int|
            0 <= i < j < evs.len() && evs[i] == LifecycleEvent::AliveCompleted(core) && evs[j]
                == LifecycleEvent::RunEntered(core),
{
    lemma_phase_history(phases, evs, core);
}

/// Canonically, exactly the first core performs the one-time global setup
/// (installing drivers, activating interrupt sources) during its
/// `on_alive`; every other core's `on_alive` leaves the shared state
/// alone.
pub fn is_primary_core(core: u32) -> (r: bool)
    ensures
        r <==> core == 0,
{
    core == 0
}

} // verus!
