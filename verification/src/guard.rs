//! Singleton guard arbitrating exclusive access to a shared peripheral
//! driver across cores.
//!
//! A guard holds at most one installed driver and grants scoped, mutually
//! exclusive access to it. At most one scope holds the driver at any
//! instant; that bound is structural here (`holder` is a single `Option`),
//! and the acquisition protocol is modeled as an explicit transition
//! function so that the exclusion law is proved over every interleaving of
//! acquisition attempts. Blocking is represented by the `Blocked` outcome:
//! a real core that observes it spins until the holder releases.
//!
//! Reentrant acquisition — a context acquiring a guard its own caller
//! already holds — deadlocks the affected core. That is a documented caller
//! obligation, not a detected error: the scoped entry point excludes the
//! held state by precondition instead of booking reentrancy at run time.

use vstd::prelude::*;

verus! {

/// What one acquisition attempt observed.
#[derive(Clone, Copy, PartialEq, Eq, Structural, Debug)]
pub enum AcquireOutcome {
    /// The attempt won the guard; the scope now holds it exclusively.
    Granted,
    /// Another scope holds the guard; the attempt must wait for release.
    Blocked,
    /// No driver has been installed yet; the attempt returns at once.
    NoDriver,
}

/// A configuration fault while setting a guard up.
#[derive(Clone, Copy, PartialEq, Eq, Structural, Debug)]
pub enum GuardError {
    /// A driver is already installed; re-installation mid-flight would
    /// invalidate a concurrently held borrow, so it fails loudly.
    AlreadyInstalled,
}

/// A process-wide slot holding at most one peripheral driver plus the
/// mutual-exclusion state arbitrating access to it.
pub struct PeripheralGuard<T> {
    /// The installed driver, absent until [`PeripheralGuard::install`].
    pub driver: Option<T>,
    /// The core whose scope currently holds exclusive access, if any.
    pub holder: Option<u32>,
}

impl<T> PeripheralGuard<T> {
    /// A driver is installed.
    pub open spec fn installed(self) -> bool {
        self.driver is Some
    }

    /// Some scope currently holds exclusive access.
    pub open spec fn held(self) -> bool {
        self.holder is Some
    }

    /// Invariant: only an installed driver can be held.
    pub open spec fn wf(self) -> bool {
        self.held() ==> self.installed()
    }

    /// The guard after one acquisition attempt by `core`, and what the
    /// attempt observed: an empty guard answers at once, a held guard
    /// blocks the attempt and changes nothing, a free guard is granted.
    pub open spec fn spec_try_acquire(self, core: u32) -> (PeripheralGuard<T>, AcquireOutcome) {
        if self.driver is None {
            (self, AcquireOutcome::NoDriver)
        } else if self.holder is Some {
            (self, AcquireOutcome::Blocked)
        } else {
            (PeripheralGuard { driver: self.driver, holder: Some(core) }, AcquireOutcome::Granted)
        }
    }

    /// The guard after `core` gives its scope up: release succeeds exactly
    /// when `core` is the holder; anyone else changes nothing.
    pub open spec fn spec_release(self, core: u32) -> (PeripheralGuard<T>, bool) {
        if self.holder == Some(core) {
            (PeripheralGuard { driver: self.driver, holder: None }, true)
        } else {
            (self, false)
        }
    }

    /// An empty guard: no driver, nothing held.
    pub fn new() -> (r: PeripheralGuard<T>)
        ensures
            r.driver is None,
            r.holder is None,
            r.wf(),
    {
        PeripheralGuard { driver: None, holder: None }
    }

    /// Moves a driver into the guard, exactly once: a second installation
    /// fails loudly and leaves the guard unchanged.
    pub fn install(&mut self, driver: T) -> (r: Result<(), GuardError>)
        ensures
            old(self).installed() ==> r == Err::<(), GuardError>(GuardError::AlreadyInstalled)
                && final(self).driver == old(self).driver && final(self).holder == old(
            self).holder,
            !old(self).installed() ==> r == Ok::<(), GuardError>(()) && final(self).driver
                == Some(driver) && final(self).holder == old(self).holder,
            old(self).wf() ==> final(self).wf(),
    {
        match &self.driver {
            Some(_) => Err(GuardError::AlreadyInstalled),
            None => {
                self.driver = Some(driver);
                Ok(())
            },
        }
    }

    /// One acquisition attempt by `core`, following
    /// [`PeripheralGuard::spec_try_acquire`] exactly. A real core retries a
    /// `Blocked` outcome until the holder releases; the attempt itself
    /// never waits.
    pub fn try_acquire(&mut self, core: u32) -> (r: AcquireOutcome)
        ensures
            *final(self) == old(self).spec_try_acquire(core).0,
            r == old(self).spec_try_acquire(core).1,
            old(self).wf() ==> final(self).wf(),
    {
        match &self.driver {
            None => AcquireOutcome::NoDriver,
            Some(_) => {
                match &self.holder {
                    Some(_) => AcquireOutcome::Blocked,
                    None => {
                        self.holder = Some(core);
                        AcquireOutcome::Granted
                    },
                }
            },
        }
    }

    /// Ends `core`'s exclusive scope, following
    /// [`PeripheralGuard::spec_release`] exactly: true when `core` held the
    /// guard and has now released it.
    pub fn release(&mut self, core: u32) -> (r: bool)
        ensures
            *final(self) == old(self).spec_release(core).0,
            r == old(self).spec_release(core).1,
            old(self).wf() ==> final(self).wf(),
    {
        match self.holder {
            Some(h) => {
                if h == core {
                    self.holder = None;
                    true
                } else {
                    false
                }
            },
            None => false,
        }
    }

    /// Scoped exclusive access: grants `f` the installed driver, puts the
    /// driver `f` hands back into place, and releases on every exit path.
    /// On an empty guard it yields `None` at once, without blocking.
    ///
    /// The guard must not already be held: acquiring a guard the calling
    /// context itself holds deadlocks the core, and a scope held by another
    /// core is waited out before entry. Both are excluded here by
    /// precondition; a caller that cannot rule the holder out spins on
    /// [`PeripheralGuard::try_acquire`] instead.
    pub fn with_exclusive<R, F: FnOnce(T) -> (T, R)>(&mut self, core: u32, f: F) -> (r: Option<R>)
        requires
            !old(self).held(),
            old(self).driver matches Some(d) ==> call_requires(f, (d,)),
        ensures
            old(self).driver is None ==> r is None && final(self).driver is None && final(
            self).holder == old(self).holder,
            old(self).driver matches Some(d) ==> (r matches Some(out) && final(
            self).driver matches Some(d2) && call_ensures(f, (d,), (d2, out)) && final(self).holder
                == old(self).holder),
            old(self).wf() ==> final(self).wf(),
    {
        match self.driver.take() {
            None => None,
            Some(d) => {
                self.holder = Some(core);
                let (d2, out) = f(d);
                self.driver = Some(d2);
                self.holder = None;
                Some(out)
            },
        }
    }

    /// The guard and the outcomes after a whole sequence of acquisition
    /// attempts, one per entry of `cores`, with no release in between.
    pub open spec fn run_acquires(g: PeripheralGuard<T>, cores: Seq<u32>) -> (
        PeripheralGuard<T>,
        Seq<AcquireOutcome>,
    )
        decreases cores.len(),
    {
        if cores.len() == 0 {
            (g, Seq::empty())
        } else {
            let step = g.spec_try_acquire(cores[0]);
            let rest = Self::run_acquires(step.0, cores.drop_first());
            (rest.0, seq![step.1] + rest.1)
        }
    }

    /// While some scope holds the guard, every further acquisition attempt
    /// observes `Blocked` and nothing changes until release.
    pub proof fn lemma_held_blocks_all(g: PeripheralGuard<T>, cores: Seq<u32>)
        requires
            g.held(),
            g.installed(),
        ensures
            Self::run_acquires(g, cores).0 == g,
            Self::run_acquires(g, cores).1.len() == cores.len(),
            forall|i: int|
                0 <= i < cores.len() ==> Self::run_acquires(g, cores).1[i]
                    == AcquireOutcome::Blocked,
        decreases cores.len(),
    {
        if cores.len() > 0 {
            Self::lemma_held_blocks_all(g, cores.drop_first());
        }
    }

    /// Mutual exclusion: under any interleaving of concurrent acquisition
    /// attempts on an installed, free guard, exactly the first attempt is
    /// granted and every other observes blocking until release.
    pub proof fn lemma_mutual_exclusion(g: PeripheralGuard<T>, cores: Seq<u32>)
        requires
            g.installed(),
            !g.held(),
            cores.len() >= 1,
        ensures
            Self::run_acquires(g, cores).1.len() == cores.len(),
            Self::run_acquires(g, cores).1[0] == AcquireOutcome::Granted,
            forall|i: int|
                1 <= i < cores.len() ==> Self::run_acquires(g, cores).1[i]
                    == AcquireOutcome::Blocked,
            Self::run_acquires(g, cores).0.holder == Some(cores[0]),
    {
        let held = g.spec_try_acquire(cores[0]).0;
        Self::lemma_held_blocks_all(held, cores.drop_first());
    }

    /// Once the holder releases, the next acquisition attempt is granted
    /// again: blocking lasts exactly until release.
    pub proof fn lemma_release_then_grant(g: PeripheralGuard<T>, holder: u32, core: u32)
        requires
            g.installed(),
            g.holder == Some(holder),
        ensures
            g.spec_release(holder).1,
            g.spec_release(holder).0.spec_try_acquire(core).1 == AcquireOutcome::Granted,
    {
    }
}

} // verus!
