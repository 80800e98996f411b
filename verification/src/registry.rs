//! The world registry: live worlds by handle, and the handle counter.
//!
//! Handles are issued by a counter that starts at one and only grows, so a
//! handle is never zero and never issued twice. A handle is *live* from the
//! call that created its world to the call that destroys it; afterwards it is
//! *retired* and every lookup of it misses. A registry marked poisoned stands
//! for one whose guard can no longer be acquired.

use std::collections::HashMap;
use vstd::prelude::*;

verus! {

broadcast use vstd::std_specs::hash::group_hash_axioms;

/// The state of one falling point mass. Each field is a binary64 bit pattern.
#[derive(Clone, Copy, Debug, PartialEq, Eq, Structural)]
pub struct World {
    /// Elapsed simulated time.
    pub t: u64,
    /// Position.
    pub y: u64,
    /// Vertical velocity.
    pub vy: u64,
}

/// The registry as a mathematical value.
pub struct RegistryView {
    /// The live worlds, by handle.
    pub worlds: Map<u64, World>,
    /// The handle that the next successful creation returns.
    pub next_handle: u64,
    pub poisoned: bool,
}

impl RegistryView {
    /// Every live handle was issued: it is at least one and below the counter.
    pub open spec fn wf(self) -> bool {
        &&& self.next_handle >= 1
        &&& forall|h: u64| #[trigger] self.worlds.contains_key(h) ==> 1 <= h < self.next_handle
    }

    /// The handle names a world that was created and not yet destroyed.
    pub open spec fn is_live(self, handle: u64) -> bool {
        self.worlds.contains_key(handle)
    }

    /// The handle was returned by some earlier creation.
    pub open spec fn was_issued(self, handle: u64) -> bool {
        1 <= handle < self.next_handle
    }

    /// The handle was issued and its world has been destroyed since.
    pub open spec fn is_retired(self, handle: u64) -> bool {
        self.was_issued(handle) && !self.is_live(handle)
    }

    /// No handle is left to issue.
    pub open spec fn is_exhausted(self) -> bool {
        self.next_handle == u64::MAX
    }

    /// The registry after the counter moved past the handle it showed.
    pub open spec fn after_issue(self) -> RegistryView
        recommends
            !self.is_exhausted(),
    {
        RegistryView { next_handle: (self.next_handle + 1) as u64, ..self }
    }

    /// The registry with `world` stored under `handle`.
    pub open spec fn with_world(self, handle: u64, world: World) -> RegistryView {
        RegistryView { worlds: self.worlds.insert(handle, world), ..self }
    }

    /// The registry without the world under `handle`.
    pub open spec fn without(self, handle: u64) -> RegistryView {
        RegistryView { worlds: self.worlds.remove(handle), ..self }
    }

    /// `self` is a state that operations can lead to from `earlier`: the
    /// counter did not go back, and every handle that is live now either was
    /// live then or had not been issued yet.
    pub open spec fn succeeds(self, earlier: RegistryView) -> bool {
        &&& earlier.next_handle <= self.next_handle
        &&& forall|h: u64| #[trigger]
            self.is_live(h) ==> earlier.is_live(h) || !earlier.was_issued(h)
    }
}

/// The world registry.
pub struct Registry {
    worlds: HashMap<u64, World>,
    next_handle: u64,
    poisoned: bool,
}

impl View for Registry {
    type V = RegistryView;

    closed spec fn view(&self) -> RegistryView {
        RegistryView {
            worlds: self.worlds@,
            next_handle: self.next_handle,
            poisoned: self.poisoned,
        }
    }
}

impl Registry {
    /// A registry with no worlds whose first handle will be one.
    pub fn new() -> (registry: Registry)
        ensures
            registry@ == (RegistryView { worlds: Map::empty(), next_handle: 1, poisoned: false }),
            registry@.wf(),
    {
        Registry { worlds: HashMap::new(), next_handle: 1, poisoned: false }
    }

    /// A registry with no worlds whose first handle will be `first_handle`.
    /// Handles below it count as issued and retired.
    pub fn starting_at(first_handle: u64) -> (registry: Registry)
        requires
            first_handle >= 1,
        ensures
            registry@ == (RegistryView {
                worlds: Map::empty(),
                next_handle: first_handle,
                poisoned: false,
            }),
            registry@.wf(),
    {
        Registry { worlds: HashMap::new(), next_handle: first_handle, poisoned: false }
    }

    /// Marks the registry as one whose guard was lost. From here on every
    /// operation that needs the world map reports an internal error.
    pub fn mark_poisoned(&mut self)
        ensures
            final(self)@ == (RegistryView { poisoned: true, ..old(self)@ }),
    {
        self.poisoned = true;
    }

    /// Tells whether the registry was marked poisoned.
    pub fn is_poisoned(&self) -> (r: bool)
        ensures
            r == self@.poisoned,
    {
        self.poisoned
    }

    /// The world under `handle`, if the handle is live.
    pub fn lookup(&self, handle: u64) -> (found: Option<World>)
        ensures
            found == (if self@.is_live(handle) {
                Some(self@.worlds[handle])
            } else {
                None
            }),
    {
        match self.worlds.get(&handle) {
            Some(world) => Some(*world),
            None => None,
        }
    }

    /// Takes the next handle from the counter. Gives `None`, and leaves the
    /// counter alone, once the counter has reached its ceiling.
    pub(crate) fn issue_handle(&mut self) -> (issued: Option<u64>)
        ensures
            issued == (if old(self)@.is_exhausted() {
                None
            } else {
                Some(old(self)@.next_handle)
            }),
            final(self)@ == (if old(self)@.is_exhausted() {
                old(self)@
            } else {
                old(self)@.after_issue()
            }),
    {
        if self.next_handle == u64::MAX {
            None
        } else {
            let handle: u64 = self.next_handle;
            self.next_handle = handle + 1;
            Some(handle)
        }
    }

    /// Stores `world` under `handle`, over whatever was there.
    pub(crate) fn store(&mut self, handle: u64, world: World)
        ensures
            final(self)@ == old(self)@.with_world(handle, world),
    {
        let _ = self.worlds.insert(handle, world);
    }

    /// Removes the world under `handle` and tells whether there was one.
    pub(crate) fn remove(&mut self, handle: u64) -> (was_live: bool)
        ensures
            was_live == old(self)@.is_live(handle),
            final(self)@ == old(self)@.without(handle),
            !was_live ==> final(self)@ == old(self)@,
    {
        let was_live = self.worlds.remove(&handle).is_some();
        assert(!was_live ==> self.worlds@ =~= old(self).worlds@);
        was_live
    }
}

/// A state succeeds itself.
pub proof fn succeeds_is_reflexive(a: RegistryView)
    ensures
        a.succeeds(a),
{
}

/// Where `b` succeeds `a` and `c` succeeds `b`, `c` succeeds `a`.
pub proof fn succeeds_is_transitive(a: RegistryView, b: RegistryView, c: RegistryView)
    requires
        b.succeeds(a),
        c.succeeds(b),
    ensures
        c.succeeds(a),
{
    assert forall|h: u64| #[trigger] c.is_live(h) implies a.is_live(h) || !a.was_issued(h) by {
        if b.is_live(h) {
        } else {
            assert(!b.was_issued(h));
        }
    }
}

/// A retired handle stays retired: once a world was destroyed, no later
/// state has a world under its handle.
pub proof fn retired_stays_retired(earlier: RegistryView, later: RegistryView, handle: u64)
    requires
        later.succeeds(earlier),
        earlier.is_retired(handle),
    ensures
        later.is_retired(handle),
{
}

/// Along any run of states in which each succeeds the one before it, a
/// state's counter is at most that of every later state.
pub proof fn counter_never_goes_back(run: Seq<RegistryView>, i: int, j: int)
    requires
        forall|k: int| 0 <= k < run.len() - 1 ==> (#[trigger] run[k + 1]).succeeds(run[k]),
        0 <= i <= j < run.len(),
    ensures
        run[i].next_handle <= run[j].next_handle,
    decreases j - i,
{
    if i < j {
        counter_never_goes_back(run, i, j - 1);
        assert(run[(j - 1) + 1].succeeds(run[j - 1]));
    }
}

/// Handles are never issued twice. Take any run of states in which each
/// succeeds the one before it, and two places `i < j` in it where a handle
/// was issued, that is, where the counter moved past the handle it showed.
/// Then the two handles issued are nonzero and the later is the larger.
pub proof fn issued_handles_are_distinct(run: Seq<RegistryView>, i: int, j: int)
    requires
        forall|k: int| 0 <= k < run.len() ==> (#[trigger] run[k]).wf(),
        forall|k: int| 0 <= k < run.len() - 1 ==> (#[trigger] run[k + 1]).succeeds(run[k]),
        0 <= i < j < run.len() - 1,
        run[i + 1].next_handle > run[i].next_handle,
    ensures
        run[i].next_handle != 0,
        run[j].next_handle != 0,
        run[i].next_handle < run[j].next_handle,
{
    counter_never_goes_back(run, i + 1, j);
}

} // verus!
