use vstd::prelude::*;
use vstd::rwlock::RwLock;
use vstd::rwlock::RwLockPredicate;

verus! {

/// A live set is well formed for a catalog of `cap` entries when every index
/// it holds points into that catalog.
pub open spec fn live_set_wf(s: Seq<usize>, cap: nat) -> bool {
    forall|i: int| 0 <= i < s.len() ==> (#[trigger] s[i] as nat) < cap
}

/// Lock predicate for the registry: whatever set is stored, all of its
/// indices are within catalog bounds.
pub struct LiveSetPred {
    pub cap: nat,
}

impl RwLockPredicate<Vec<usize>> for LiveSetPred {
    open spec fn inv(self, v: Vec<usize>) -> bool {
        live_set_wf(v@, self.cap)
    }
}

/// The one mutable shared resource of the core: the set of catalog indices
/// currently believed healthy. The health monitor replaces it wholesale;
/// dispatcher tasks read a copy, so no reader ever observes a partial write
/// and no lock is held across a network call.
pub struct LiveSetRegistry {
    lock: RwLock<Vec<usize>, LiveSetPred>,
}

/// The optimistic startup set: all catalog indices, in order, before the
/// first probe cycle has run.
pub fn initial_live_set(catalog_len: usize) -> (r: Vec<usize>)
    ensures
        r@.len() == catalog_len,
        forall|i: int| 0 <= i < catalog_len ==> #[trigger] r@[i] == i,
{
    let mut v: Vec<usize> = Vec::new();
    let mut i: usize = 0;
    while i < catalog_len
        invariant
            i <= catalog_len,
            v@.len() == i,
            forall|j: int| 0 <= j < i ==> #[trigger] v@[j] == j,
        decreases catalog_len - i,
    {
        v.push(i);
        i = i + 1;
    }
    v
}

fn copy_indices(v: &Vec<usize>) -> (r: Vec<usize>)
    ensures
        r@ == v@,
{
    let mut r: Vec<usize> = Vec::new();
    let n = v.len();
    let mut i: usize = 0;
    while i < n
        invariant
            n == v@.len(),
            i <= n,
            r@ == v@.subrange(0, i as int),
        decreases n - i,
    {
        r.push(v[i]);
        i = i + 1;
    }
    proof {
        assert(r@ =~= v@);
    }
    r
}

impl LiveSetRegistry {
    /// Length of the catalog this registry's indices point into.
    pub closed spec fn catalog_len(&self) -> nat {
        self.lock.pred().cap
    }

    /// A fresh registry starts with every catalog index live.
    pub fn new(catalog_len: usize) -> (r: Self)
        ensures
            r.catalog_len() == catalog_len,
    {
        let init = initial_live_set(catalog_len);
        LiveSetRegistry {
            lock: RwLock::new(init, Ghost(LiveSetPred { cap: catalog_len as nat })),
        }
    }

    /// Returns a copy of the current set, never a live reference, so callers
    /// cannot race with the next replace. Every snapshot satisfies the
    /// registry invariant: each index is within catalog bounds.
    pub fn snapshot(&self) -> (r: Vec<usize>)
        ensures
            live_set_wf(r@, self.catalog_len()),
    {
        let handle = self.lock.acquire_read();
        let copy = copy_indices(handle.borrow());
        handle.release_read();
        copy
    }

    /// Atomically swaps the entire set for a new one.
    pub fn replace(&self, new_set: Vec<usize>)
        requires
            live_set_wf(new_set@, self.catalog_len()),
    {
        let (_old_set, handle) = self.lock.acquire_write();
        handle.release_write(new_set);
    }
}

} // verus!
