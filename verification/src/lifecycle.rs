//! Lifecycle of the shared, lazily loaded inference resource.
//!
//! The resource is owned by one manager and used by many concurrent callers,
//! all serialized through one lock held around each transition below (the
//! slow build itself runs outside the lock, between an `enter` and a
//! `finish`).  The manager guarantees that at most one load or reload is in
//! flight, that a caller never sees a half-swapped handle, and that a failed
//! reload leaves the resource unloaded rather than keeping a stale handle.
//!
//! The handle itself is opaque to this module; it is identified by a
//! generation number that is fresh for every successful build, so a swap is
//! visible as a change of generation and nothing else.

use vstd::prelude::*;

verus! {

/// The lifecycle state of the shared resource.
pub enum ResourceState {
    /// No handle is available and nobody is building one.
    Unloaded,
    /// Exactly one caller is building the first handle; others wait.
    Loading,
    /// A handle is available, identified by its generation.
    Loaded { generation: u64 },
    /// Exactly one caller is replacing the handle; others wait.
    Reloading,
}

/// What a caller arriving at `ensure_loaded` must do next.
pub enum EnsureStep {
    /// A handle is already there; use it.
    AlreadyLoaded,
    /// The caller is the one loader: build the handle, then report the
    /// outcome through `load_finish`.
    StartLoad,
    /// A load or reload is in flight; wait for it to resolve, then look
    /// again.
    Wait,
}

/// What a caller arriving at `reload` must do next.
pub enum ReloadStep {
    /// The caller is the one rebuilder: build a fresh handle, then report
    /// the outcome through `reload_finish`.
    StartReload,
    /// A load or reload is in flight; wait for it to resolve, then look
    /// again.
    Wait,
}

/// The error surfaced when the pipeline is invoked before a load completed.
#[derive(PartialEq, Eq, Structural, Debug)]
pub enum LifecycleError {
    ResourceUnavailable,
}

/// A load or reload is in flight.
pub open spec fn spec_in_flight(s: ResourceState) -> bool {
    s is Loading || s is Reloading
}

/// The transition a caller arriving at `ensure_loaded` takes: only from
/// `Unloaded` does anyone start a load.
pub open spec fn spec_ensure_enter(s: ResourceState) -> (ResourceState, EnsureStep) {
    match s {
        ResourceState::Unloaded => (ResourceState::Loading, EnsureStep::StartLoad),
        ResourceState::Loading => (ResourceState::Loading, EnsureStep::Wait),
        ResourceState::Reloading => (ResourceState::Reloading, EnsureStep::Wait),
        ResourceState::Loaded { generation } => (
            ResourceState::Loaded { generation },
            EnsureStep::AlreadyLoaded,
        ),
    }
}

/// The transition a caller arriving at `reload` takes: a rebuild starts from
/// any settled state, and waits while another build is in flight.
pub open spec fn spec_reload_enter(s: ResourceState) -> (ResourceState, ReloadStep) {
    match s {
        ResourceState::Unloaded => (ResourceState::Reloading, ReloadStep::StartReload),
        ResourceState::Loaded { generation: _ } => (
            ResourceState::Reloading,
            ReloadStep::StartReload,
        ),
        ResourceState::Loading => (ResourceState::Loading, ReloadStep::Wait),
        ResourceState::Reloading => (ResourceState::Reloading, ReloadStep::Wait),
    }
}

/// How a finished build resolves: the fresh handle on success, `Unloaded`
/// on failure — never anything older.
pub open spec fn spec_build_finish(fresh_generation: u64, ok: bool) -> ResourceState {
    if ok {
        ResourceState::Loaded { generation: fresh_generation }
    } else {
        ResourceState::Unloaded
    }
}

/// The owner of the shared resource's lifecycle state.
pub struct ResourceManager {
    pub state: ResourceState,
    /// The generation the next successful build will carry; strictly above
    /// every generation handed out so far.
    pub next_generation: u64,
}

impl ResourceManager {
    /// Every generation handed out so far lies below `next_generation`.
    pub open spec fn wf(self) -> bool {
        match self.state {
            ResourceState::Loaded { generation } => generation < self.next_generation,
            _ => true,
        }
    }

    /// A new manager: unloaded, nothing in flight.
    pub fn new() -> (r: ResourceManager)
        ensures
            r.state is Unloaded,
            r.wf(),
    {
        ResourceManager { state: ResourceState::Unloaded, next_generation: 0 }
    }

    /// One caller's arrival at `ensure_loaded`, under the lock.  Exactly the
    /// caller that finds the resource `Unloaded` starts the load; a caller
    /// that finds a build in flight waits instead of racing a second one.
    pub fn ensure_loaded_enter(&mut self) -> (r: EnsureStep)
        requires
            old(self).wf(),
        ensures
            final (self).wf(),
            (final (self).state, r) == spec_ensure_enter(old(self).state),
            final (self).next_generation == old(self).next_generation,
    {
        match self.state {
            ResourceState::Unloaded => {
                self.state = ResourceState::Loading;
                EnsureStep::StartLoad
            },
            ResourceState::Loading => EnsureStep::Wait,
            ResourceState::Reloading => EnsureStep::Wait,
            ResourceState::Loaded { .. } => EnsureStep::AlreadyLoaded,
        }
    }

    /// The one loader commits its outcome, under the lock: the fresh handle
    /// on success, back to `Unloaded` on failure.  Every waiting caller then
    /// observes this same state.
    pub fn load_finish(&mut self, ok: bool)
        requires
            old(self).wf(),
            old(self).state is Loading,
            old(self).next_generation < u64::MAX,
        ensures
            final (self).wf(),
            final (self).state == spec_build_finish(old(self).next_generation, ok),
            !spec_in_flight(final (self).state),
    {
        if ok {
            let generation = self.next_generation;
            self.next_generation = self.next_generation + 1;
            self.state = ResourceState::Loaded { generation };
        } else {
            self.state = ResourceState::Unloaded;
        }
    }

    /// One caller's arrival at `reload`, under the lock.  A rebuild always
    /// starts from a settled state; while another build is in flight the
    /// caller waits.
    pub fn reload_enter(&mut self) -> (r: ReloadStep)
        requires
            old(self).wf(),
        ensures
            final (self).wf(),
            (final (self).state, r) == spec_reload_enter(old(self).state),
            final (self).next_generation == old(self).next_generation,
    {
        match self.state {
            ResourceState::Unloaded => {
                self.state = ResourceState::Reloading;
                ReloadStep::StartReload
            },
            ResourceState::Loaded { .. } => {
                self.state = ResourceState::Reloading;
                ReloadStep::StartReload
            },
            ResourceState::Loading => ReloadStep::Wait,
            ResourceState::Reloading => ReloadStep::Wait,
        }
    }

    /// The one rebuilder commits its outcome, under the lock.  On success
    /// the handle is swapped atomically for one with a fresh generation; on
    /// failure the resource is cleared to `Unloaded`, never left at the
    /// prior handle.
    pub fn reload_finish(&mut self, ok: bool)
        requires
            old(self).wf(),
            old(self).state is Reloading,
            old(self).next_generation < u64::MAX,
        ensures
            final (self).wf(),
            final (self).state == spec_build_finish(old(self).next_generation, ok),
            !spec_in_flight(final (self).state),
            !ok ==> final (self).state is Unloaded,
    {
        if ok {
            let generation = self.next_generation;
            self.next_generation = self.next_generation + 1;
            self.state = ResourceState::Loaded { generation };
        } else {
            self.state = ResourceState::Unloaded;
        }
    }

    /// The guard of `with_resource`, under the lock: the current handle's
    /// generation if one is loaded, and `ResourceUnavailable` in every other
    /// state.
    pub fn acquire_for_invoke(&self) -> (r: Result<u64, LifecycleError>)
        ensures
            match r {
                Ok(generation) => self.state == (ResourceState::Loaded { generation }),
                Err(e) => !(self.state is Loaded) && e == LifecycleError::ResourceUnavailable,
            },
    {
        match self.state {
            ResourceState::Loaded { generation } => Ok(generation),
            _ => Err(LifecycleError::ResourceUnavailable),
        }
    }
}

/// The steps handed to `n` callers that arrive at `ensure_loaded` one after
/// another, starting from `s`, with no build resolving in between.
pub open spec fn spec_enter_run(s: ResourceState, n: nat) -> Seq<EnsureStep>
    decreases n,
{
    if n == 0 {
        Seq::empty()
    } else {
        let (s2, step) = spec_ensure_enter(s);
        seq![step] + spec_enter_run(s2, (n - 1) as nat)
    }
}

/// While the first caller's load is in flight, every further caller waits.
pub proof fn lemma_run_from_loading(n: nat)
    ensures
        spec_enter_run(ResourceState::Loading, n).len() == n,
        forall|i: int| 0 <= i < n ==> spec_enter_run(ResourceState::Loading, n)[i]
            == EnsureStep::Wait,
    decreases n,
{
    if n > 0 {
        lemma_run_from_loading((n - 1) as nat);
    }
}

/// Exactly one load attempt: of any number of callers that invoke
/// `ensure_loaded` on an `Unloaded` resource, the first starts the one
/// load and every other caller waits for it.  Afterward all of them observe
/// the single state that `load_finish` committed: `Loaded` on success for
/// every caller, or `Unloaded` with the one failure for every caller.
pub proof fn lemma_single_load_attempt(n: nat)
    requires
        n >= 1,
    ensures
        spec_enter_run(ResourceState::Unloaded, n).len() == n,
        spec_enter_run(ResourceState::Unloaded, n)[0] == EnsureStep::StartLoad,
        forall|i: int| 1 <= i < n ==> spec_enter_run(ResourceState::Unloaded, n)[i]
            == EnsureStep::Wait,
{
    lemma_run_from_loading((n - 1) as nat);
}

/// A loaded resource answers every caller alike: each of any number of
/// callers finds the same handle already there, with no further load
/// attempt.  Together with `lemma_single_load_attempt` this is the success
/// half of the shared outcome: after the one load commits, all callers
/// observe the one `Loaded` state — and after a failure, the one `Unloaded`
/// state, since `load_finish` leaves exactly one of the two.
pub proof fn lemma_run_from_loaded(g: u64, n: nat)
    ensures
        spec_enter_run(ResourceState::Loaded { generation: g }, n).len() == n,
        forall|i: int| 0 <= i < n ==> spec_enter_run(ResourceState::Loaded { generation: g }, n)[i]
            == EnsureStep::AlreadyLoaded,
    decreases n,
{
    if n > 0 {
        lemma_run_from_loaded(g, (n - 1) as nat);
    }
}

/// Reload atomicity: a failed rebuild resolves to `Unloaded`; it never
/// leaves any previously loaded handle in place.
pub proof fn lemma_failed_reload_clears(fresh_generation: u64)
    ensures
        spec_build_finish(fresh_generation, false) is Unloaded,
        forall|g: u64| spec_build_finish(fresh_generation, false) != (ResourceState::Loaded {
            generation: g,
        }),
{
}

} // verus!
