//! Interrupt manager: an activation table plus a global enable switch, and
//! the dispatch decision the hardware trampoline consults.
//!
//! Each interrupt source of the fixed, hardware-defined set is either
//! `Inactive` or `Active`; orthogonally, one manager-wide flag gates whether
//! interrupts are enabled at all. A source reaches its registered handler
//! only while it is active and the global flag is set; a spurious source is
//! ignored rather than fatal, since a system with no recovery path must not
//! crash on an unexpected line. Handler bindings are fixed before
//! interrupts are first enabled and are not mutable afterwards; clearing
//! the hardware's pending state before returning remains the handler
//! author's obligation, which no manager can enforce generically.

use vstd::prelude::*;

verus! {

/// How many interrupt sources the hardware defines.
pub const SOURCE_COUNT: usize = 6;

/// A member of the fixed, closed set of hardware-defined interrupt lines.
/// The set being a closed enum, activating an unknown source is
/// unrepresentable rather than a run-time error.
#[derive(Clone, Copy, PartialEq, Eq, Structural, Debug)]
pub enum IrqSource {
    /// The ARM-side timer.
    ArmTimer,
    /// The ARM mailbox.
    ArmMailbox,
    /// The auxiliary block, among it the miniUART.
    Aux,
    /// The I2C bus controller.
    I2c,
    /// GPIO bank 0.
    GpioBank0,
    /// GPIO bank 1.
    GpioBank1,
}

impl IrqSource {
    /// Position of this source in the activation and handler tables.
    pub open spec fn as_index(self) -> int {
        match self {
            IrqSource::ArmTimer => 0,
            IrqSource::ArmMailbox => 1,
            IrqSource::Aux => 2,
            IrqSource::I2c => 3,
            IrqSource::GpioBank0 => 4,
            IrqSource::GpioBank1 => 5,
        }
    }

    /// Executable form of [`IrqSource::as_index`].
    pub fn index(&self) -> (r: usize)
        ensures
            r == self.as_index(),
            r < SOURCE_COUNT,
    {
        match self {
            IrqSource::ArmTimer => 0,
            IrqSource::ArmMailbox => 1,
            IrqSource::Aux => 2,
            IrqSource::I2c => 3,
            IrqSource::GpioBank0 => 4,
            IrqSource::GpioBank1 => 5,
        }
    }
}

/// Distinct sources sit at distinct table positions.
pub proof fn lemma_source_index_injective(a: IrqSource, b: IrqSource)
    ensures
        a.as_index() == b.as_index() ==> a == b,
{
}

/// The singleton activation table plus the global enable switch. Initially
/// every source is inactive and interrupts are globally disabled.
pub struct InterruptManager {
    /// One activation flag per source, indexed by [`IrqSource::as_index`].
    pub active: Vec<bool>,
    /// Whether the hardware-wide interrupt enable flag is set at all.
    pub global_enabled: bool,
}

impl InterruptManager {
    /// Invariant: one table entry per hardware source.
    pub open spec fn wf(self) -> bool {
        self.active@.len() == SOURCE_COUNT
    }

    /// The source is in the `Active` state.
    pub open spec fn is_active(self, s: IrqSource) -> bool {
        self.active@[s.as_index()]
    }

    /// The initial manager: every source `Inactive`, interrupts disabled.
    pub fn new() -> (r: InterruptManager)
        ensures
            r.wf(),
            !r.global_enabled,
            forall|s: IrqSource| !r.is_active(s),
    {
        let mut active: Vec<bool> = Vec::new();
        let mut i: usize = 0;
        while i < SOURCE_COUNT
            invariant
                active@.len() == i,
                i <= SOURCE_COUNT,
                forall|k: int| 0 <= k < i ==> !active@[k],
            decreases SOURCE_COUNT - i,
        {
            active.push(false);
            i += 1;
        }
        InterruptManager { active, global_enabled: false }
    }

    /// Marks `s` as one the dispatch trampoline routes to its handler;
    /// every other source and the global switch keep their state.
    pub fn activate(&mut self, s: IrqSource)
        requires
            old(self).wf(),
        ensures
            final(self).wf(),
            final(self).is_active(s),
            forall|t: IrqSource| t != s ==> final(self).is_active(t) == old(self).is_active(t),
            final(self).global_enabled == old(self).global_enabled,
    {
        let i = s.index();
        self.active[i] = true;
        proof {
            assert forall|t: IrqSource| t != s implies self.is_active(t) == old(self).is_active(
                t,
            ) by {
                lemma_source_index_injective(t, s);
            }
        }
    }

    /// Returns `s` to the `Inactive` state: even a line the hardware still
    /// asserts no longer reaches its handler.
    pub fn deactivate(&mut self, s: IrqSource)
        requires
            old(self).wf(),
        ensures
            final(self).wf(),
            !final(self).is_active(s),
            forall|t: IrqSource| t != s ==> final(self).is_active(t) == old(self).is_active(t),
            final(self).global_enabled == old(self).global_enabled,
    {
        let i = s.index();
        self.active[i] = false;
        proof {
            assert forall|t: IrqSource| t != s implies self.is_active(t) == old(self).is_active(
                t,
            ) by {
                lemma_source_index_injective(t, s);
            }
        }
    }

    /// Sets the hardware-wide interrupt enable flag; the activation table
    /// is published before this is first called and is untouched by it.
    pub fn enable_interrupts(&mut self)
        ensures
            final(self).global_enabled,
            final(self).active == old(self).active,
            old(self).wf() ==> final(self).wf(),
    {
        self.global_enabled = true;
    }

    /// Clears the hardware-wide interrupt enable flag.
    pub fn disable_interrupts(&mut self)
        ensures
            !final(self).global_enabled,
            final(self).active == old(self).active,
            old(self).wf() ==> final(self).wf(),
    {
        self.global_enabled = false;
    }

    /// Whether `s` is in the `Active` state.
    pub fn source_active(&self, s: IrqSource) -> (r: bool)
        requires
            self.wf(),
        ensures
            r == self.is_active(s),
    {
        let i = s.index();
        self.active[i]
    }
}

/// A fault while wiring handlers up.
#[derive(Clone, Copy, PartialEq, Eq, Structural, Debug)]
pub enum BindError {
    /// The source already has its one handler; bindings are fixed before
    /// execution begins, never rebound at run time.
    AlreadyBound,
}

/// The fixed table binding each source to at most one handler, built once
/// before interrupts are enabled and handed to the dispatch trampoline.
/// Handlers are identified by opaque tokens; the unverified outer layer
/// owns the actual function pointers and calls the one whose token the
/// dispatch decision names.
pub struct HandlerTable {
    /// One optional handler token per source, indexed by
    /// [`IrqSource::as_index`].
    pub bound: Vec<Option<u64>>,
}

impl HandlerTable {
    /// Invariant: one table entry per hardware source.
    pub open spec fn wf(self) -> bool {
        self.bound@.len() == SOURCE_COUNT
    }

    /// The handler bound to `s`, if any.
    pub open spec fn binding(self, s: IrqSource) -> Option<u64> {
        self.bound@[s.as_index()]
    }

    /// The empty table: no source has a handler yet.
    pub fn new() -> (r: HandlerTable)
        ensures
            r.wf(),
            forall|s: IrqSource| r.binding(s) is None,
    {
        let mut bound: Vec<Option<u64>> = Vec::new();
        let mut i: usize = 0;
        while i < SOURCE_COUNT
            invariant
                bound@.len() == i,
                i <= SOURCE_COUNT,
                forall|k: int| 0 <= k < i ==> bound@[k] is None,
            decreases SOURCE_COUNT - i,
        {
            bound.push(None);
            i += 1;
        }
        HandlerTable { bound }
    }

    /// Binds `handler` as the one handler of `s`; a source that already
    /// has a handler keeps it and the call fails loudly.
    pub fn bind(&mut self, s: IrqSource, handler: u64) -> (r: Result<(), BindError>)
        requires
            old(self).wf(),
        ensures
            final(self).wf(),
            old(self).binding(s) is Some ==> r == Err::<(), BindError>(BindError::AlreadyBound)
                && final(self).bound == old(self).bound,
            old(self).binding(s) is None ==> r == Ok::<(), BindError>(()) && final(self).binding(s)
                == Some(handler),
            forall|t: IrqSource| t != s ==> final(self).binding(t) == old(self).binding(t),
    {
        let i = s.index();
        match self.bound[i] {
            Some(_) => Err(BindError::AlreadyBound),
            None => {
                self.bound[i] = Some(handler);
                proof {
                    assert forall|t: IrqSource| t != s implies self.binding(t) == old(
                        self,
                    ).binding(t) by {
                        lemma_source_index_injective(t, s);
                    }
                }
                Ok(())
            },
        }
    }

    /// The handler bound to `s`, if any.
    pub fn handler_for(&self, s: IrqSource) -> (r: Option<u64>)
        requires
            self.wf(),
        ensures
            r == self.binding(s),
    {
        let i = s.index();
        self.bound[i]
    }
}

/// The dispatch decision for one fired source: its bound handler exactly
/// when the source is active and interrupts are globally enabled, and
/// nothing otherwise.
pub open spec fn spec_dispatch(mgr: InterruptManager, table: HandlerTable, pending: IrqSource) -> Option<u64> {
    if mgr.global_enabled && mgr.is_active(pending) {
        table.binding(pending)
    } else {
        None
    }
}

/// Activation gating: a source that is not active, or fired while
/// interrupts are globally disabled, never reaches user code — so in
/// particular, deactivating a source prevents every further dispatch to
/// its handler even while the hardware still asserts the line.
pub proof fn lemma_activation_gating(mgr: InterruptManager, table: HandlerTable, s: IrqSource)
    ensures
        !(mgr.is_active(s) && mgr.global_enabled) ==> spec_dispatch(mgr, table, s) is None,
        spec_dispatch(mgr, table, s) is Some ==> mgr.is_active(s) && mgr.global_enabled
            && spec_dispatch(mgr, table, s) == table.binding(s),
{
}

/// One step of the hardware trampoline: given the source whose pending
/// flag the hardware reported, decide which handler to invoke on the
/// receiving core. A `None` is the ignore-and-continue policy for spurious
/// or gated interrupts.
pub fn dispatch(mgr: &InterruptManager, table: &HandlerTable, pending: IrqSource) -> (r: Option<
    u64,
>)
    requires
        mgr.wf(),
        table.wf(),
    ensures
        r == spec_dispatch(*mgr, *table, pending),
        !(mgr.is_active(pending) && mgr.global_enabled) ==> r is None,
{
    if mgr.global_enabled && mgr.source_active(pending) {
        table.handler_for(pending)
    } else {
        None
    }
}

/// The handlers a whole burst of fired sources reaches, in firing order:
/// the sequential invocations the trampoline performs, one after the
/// previous handler has returned.
pub open spec fn spec_dispatch_run(
    mgr: InterruptManager,
    table: HandlerTable,
    fired: Seq<IrqSource>,
) -> Seq<u64>
    decreases fired.len(),
{
    if fired.len() == 0 {
        Seq::empty()
    } else {
        let rest = spec_dispatch_run(mgr, table, fired.drop_first());
        match spec_dispatch(mgr, table, fired[0]) {
            Some(h) => seq![h] + rest,
            None => rest,
        }
    }
}

/// Runs the dispatch decision over a burst of fired sources in order,
/// returning the handlers to invoke, sequentially and without overlap, on
/// the core that received the exceptions.
pub fn dispatch_all(mgr: &InterruptManager, table: &HandlerTable, fired: &Vec<IrqSource>) -> (r:
    Vec<u64>)
    requires
        mgr.wf(),
        table.wf(),
    ensures
        r@ == spec_dispatch_run(*mgr, *table, fired@),
{
    let mut invoked: Vec<u64> = Vec::new();
    let n = fired.len();
    let mut i: usize = 0;
    proof {
        assert(fired@.skip(0) =~= fired@);
        assert(Seq::<u64>::empty() + spec_dispatch_run(*mgr, *table, fired@) =~= spec_dispatch_run(
            *mgr,
            *table,
            fired@,
        ));
    }
    while i < n
        invariant
            mgr.wf(),
            table.wf(),
            n == fired@.len(),
            0 <= i <= n,
            invoked@ + spec_dispatch_run(*mgr, *table, fired@.skip(i as int)) == spec_dispatch_run(
                *mgr,
                *table,
                fired@,
            ),
        decreases n - i,
    {
        proof {
            assert(fired@.skip(i as int).drop_first() =~= fired@.skip(i + 1));
            assert(fired@.skip(i as int)[0] == fired@[i as int]);
        }
        match dispatch(mgr, table, fired[i]) {
            Some(h) => {
                proof {
                    assert(invoked@ + spec_dispatch_run(*mgr, *table, fired@.skip(i as int))
                        =~= (invoked@ + seq![spec_dispatch(*mgr, *table, fired@[i as int]).unwrap()])
                        + spec_dispatch_run(*mgr, *table, fired@.skip(i + 1)));
                }
                invoked.push(h);
            },
            None => {},
        }
        i += 1;
    }
    proof {
        assert(fired@.skip(n as int) =~= Seq::<IrqSource>::empty());
        assert(invoked@ + Seq::<u64>::empty() =~= invoked@);
    }
    invoked
}

} // verus!
