//! The resource-load gate: a set of in-flight resource handles declared by
//! content producers, an aggregate "all tracked handles loaded" query, and the
//! two-state readiness machine that moves the process from `Loading` to
//! `Running` exactly once.
//!
//! A handle is an opaque reference to an externally loaded resource; the host
//! polls the loading collaborator and reports which handles have finished as
//! plain identifiers.

use vstd::prelude::*;
use crate::GameState;

verus! {

/// The set of resource handles whose loads are being waited on. Tracking has
/// set semantics: the same handle may be tracked more than once without
/// double-counting.
pub struct AssetTracker {
    handles: Vec<u64>,
}

impl View for AssetTracker {
    type V = Set<u64>;

    closed spec fn view(&self) -> Set<u64> {
        self.handles@.to_set()
    }
}

impl AssetTracker {
    /// The backing list never holds a handle twice, so its length is the
    /// cardinality of the tracked set.
    pub closed spec fn wf(&self) -> bool {
        self.handles@.no_duplicates()
    }

    /// Constructs a tracker with nothing tracked.
    pub fn new() -> (t: AssetTracker)
        ensures
            t.wf(),
            t@ == Set::<u64>::empty(),
    {
        let t = AssetTracker { handles: Vec::new() };
        proof {
            assert(t.handles@.to_set() =~= Set::<u64>::empty());
        }
        t
    }

    /// Idempotently adds a handle to the tracked set: tracking a handle that
    /// is already tracked changes nothing.
    pub fn track(&mut self, handle: u64)
        requires
            old(self).wf(),
        ensures
            final(self).wf(),
            final(self)@ == old(self)@.insert(handle),
    {
        let mut i: usize = 0;
        while i < self.handles.len()
            invariant
                i <= self.handles.len(),
                forall|j: int| 0 <= j < i ==> self.handles@[j] != handle,
                *self == *old(self),
                old(self).wf(),
            decreases self.handles@.len() - i,
        {
            if self.handles[i] == handle {
                proof {
                    assert(old(self).handles@[i as int] == handle);
                    assert(old(self).handles@.contains(handle));
                    assert(old(self)@.insert(handle) =~= old(self)@);
                }
                return ;
            }
            i += 1;
        }
        let ghost s0 = self.handles@;
        self.handles.push(handle);
        proof {
            let s1 = self.handles@;
            assert(forall|j: int| 0 <= j < s0.len() ==> s0[j] != handle);
            assert(!s0.contains(handle));
            assert(s1[s0.len() as int] == handle);
            assert(s1.contains(handle));
            assert forall|a: u64| s1.contains(a) implies s0.contains(a) || a == handle by {
                let j = choose|j: int| 0 <= j < s1.len() && s1[j] == a;
                if j < s0.len() {
                    assert(s0[j] == a);
                }
            }
            assert forall|a: u64| s0.contains(a) implies s1.contains(a) by {
                let j = choose|j: int| 0 <= j < s0.len() && s0[j] == a;
                assert(s1[j] == a);
            }
            assert(s1.to_set() =~= s0.to_set().insert(handle));
        }
    }

    /// How many distinct handles are tracked.
    pub fn len(&self) -> (n: usize)
        requires
            self.wf(),
        ensures
            n == self@.len(),
    {
        proof {
            self.handles@.unique_seq_to_set();
        }
        self.handles.len()
    }

    /// Whether nothing is tracked.
    pub fn is_empty(&self) -> (r: bool)
        ensures
            r == (self@ == Set::<u64>::empty()),
    {
        proof {
            if self.handles@.len() == 0 {
                assert(self.handles@.to_set() =~= Set::<u64>::empty());
            } else {
                assert(self.handles@.to_set().contains(self.handles@[0]));
            }
        }
        self.handles.len() == 0
    }

    /// The aggregate load query: whether every tracked handle is among the
    /// handles the loading collaborator reports as finished.
    pub fn all_loaded(&self, loaded: &Vec<u64>) -> (r: bool)
        ensures
            r == self@.subset_of(loaded@.to_set()),
    {
        let mut i: usize = 0;
        while i < self.handles.len()
            invariant
                i <= self.handles.len(),
                forall|j: int| 0 <= j < i ==> loaded@.to_set().contains(#[trigger] self.handles@[j]),
            decreases self.handles@.len() - i,
        {
            let h = self.handles[i];
            let mut found = false;
            let mut j: usize = 0;
            while j < loaded.len()
                invariant
                    j <= loaded.len(),
                    found <==> exists|l: int| 0 <= l < j && loaded@[l] == h,
                decreases loaded@.len() - j,
            {
                if loaded[j] == h {
                    found = true;
                }
                j += 1;
            }
            if !found {
                proof {
                    assert(self@.contains(h));
                    assert(!loaded@.contains(h));
                    assert(!loaded@.to_set().contains(h));
                }
                return false;
            }
            proof {
                assert(loaded@.contains(h));
            }
            i += 1;
        }
        proof {
            assert forall|h: u64| self@.contains(h) implies loaded@.to_set().contains(h) by {
                let l = choose|l: int| 0 <= l < self.handles@.len() && self.handles@[l] == h;
                assert(loaded@.to_set().contains(self.handles@[l]));
            }
        }
        true
    }
}

impl Default for AssetTracker {
    fn default() -> (t: Self)
        ensures
            t.wf(),
            t@ == Set::<u64>::empty(),
    {
        AssetTracker::new()
    }
}

/// What one readiness poll does: while `Loading`, the
/// state moves to `Running` exactly when the aggregate load status reports all
/// tracked handles loaded; once `Running`, polling changes nothing.
pub open spec fn advance_spec(state: GameState, all_loaded: bool) -> GameState {
    match state {
        GameState::Running => GameState::Running,
        GameState::Loading => if all_loaded {
            GameState::Running
        } else {
            GameState::Loading
        },
    }
}

/// One readiness poll. Remaining in `Loading` is the expected steady state
/// during startup, not an error.
pub fn advance(state: GameState, all_loaded: bool) -> (next: GameState)
    ensures
        next == advance_spec(state, all_loaded),
{
    match state {
        GameState::Running => GameState::Running,
        GameState::Loading => if all_loaded {
            GameState::Running
        } else {
            GameState::Loading
        },
    }
}

/// The readiness state after a whole sequence of polls, each poll carrying the
/// aggregate load status it observed.
pub open spec fn run_polls(state: GameState, polls: Seq<bool>) -> GameState
    decreases polls.len(),
{
    if polls.len() == 0 {
        state
    } else {
        run_polls(advance_spec(state, polls[0]), polls.drop_first())
    }
}

/// `Running` is terminal: no sequence of further polls ever leaves it.
pub proof fn lemma_running_is_terminal(polls: Seq<bool>)
    ensures
        run_polls(GameState::Running, polls) == GameState::Running,
    decreases polls.len(),
{
    if polls.len() > 0 {
        lemma_running_is_terminal(polls.drop_first());
    }
}

/// Gate monotonicity: for any sequence of polls, once some poll observes the
/// aggregate status "all loaded", the state is `Running` after the whole
/// sequence, whatever the earlier polls observed and whatever is polled later.
/// Tracking is independent of the state entirely: `track` takes no state and
/// returns none, so further `track` calls cannot disturb this.
pub proof fn lemma_gate_monotonic(state: GameState, polls: Seq<bool>, i: int)
    requires
        0 <= i < polls.len(),
        polls[i],
    ensures
        run_polls(state, polls) == GameState::Running,
    decreases polls.len(),
{
    if i == 0 {
        assert(advance_spec(state, polls[0]) == GameState::Running);
        lemma_running_is_terminal(polls.drop_first());
    } else {
        lemma_gate_monotonic(advance_spec(state, polls[0]), polls.drop_first(), i - 1);
    }
}

} // verus!
