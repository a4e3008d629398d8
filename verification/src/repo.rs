use vstd::prelude::*;
use vstd::hash_map::StringHashMap;
use vstd::rwlock::RwLock;
use vstd::rwlock::RwLockPredicate;
use vstd::string::*;

use crate::FPDetail;
use crate::FPDetailModel;
use crate::value::FPValue;
use crate::value::FPValueModel;

verus! {

/// The client's full local cache of toggle decisions: one complete sync
/// response, keyed by toggle. Replaced wholesale, never merged in place.
pub type Repository = StringHashMap<FPDetail<FPValue>>;

/// The stored detail under `key`, when the key is present.
pub open spec fn spec_lookup(
    m: Map<Seq<char>, FPDetail<FPValue>>,
    key: Seq<char>,
) -> Option<FPDetailModel<FPValueModel>> {
    if m.contains_key(key) {
        Some(m[key]@)
    } else {
        None
    }
}

/// The model of an optional stored detail.
pub open spec fn opt_detail_model(o: Option<FPDetail<FPValue>>) -> Option<
    FPDetailModel<FPValueModel>,
> {
    match o {
        Some(d) => Some(d@),
        None => None,
    }
}

/// An empty repository.
pub fn new_repository() -> (r: Repository)
    ensures
        r@ == Map::<Seq<char>, FPDetail<FPValue>>::empty(),
{
    StringHashMap::new()
}

/// One snapshot as the cache stores it: the repository, together with the
/// (ghost) sync response it was built from. The cache's lock invariant says
/// the two agree, so a reader can only ever observe one complete response —
/// never keys of two responses mixed.
pub struct Snapshot {
    pub repo: Repository,
    pub response: Ghost<Map<Seq<char>, FPDetail<FPValue>>>,
}

impl Snapshot {
    /// The stored map is, in whole, the single response it came from.
    pub open spec fn complete(&self) -> bool {
        self.repo@ == self.response@
    }
}

/// The invariant every value stored in the cache's lock satisfies: the
/// snapshot is one complete response and, for a pinned cache, exactly the
/// map the cache was created over.
pub struct CachePred {
    pub pinned: Option<Map<Seq<char>, FPDetail<FPValue>>>,
}

impl RwLockPredicate<Snapshot> for CachePred {
    open spec fn inv(self, s: Snapshot) -> bool {
        &&& s.complete()
        &&& (match self.pinned {
            Some(m) => s.repo@ == m,
            None => true,
        })
    }
}

/// The concurrent snapshot store: unbounded concurrent readers, exclusive
/// writers, and replacement only by swapping a fully built repository under
/// the write lock. A *pinned* cache holds one fixed snapshot forever, which
/// lets every read be tied to that map in contracts.
pub struct RepositoryCache {
    lock: RwLock<Snapshot, CachePred>,
}

impl RepositoryCache {
    /// True of every snapshot this cache can hand a reader.
    pub closed spec fn observable(&self, s: Snapshot) -> bool {
        self.lock.inv(s)
    }

    /// The fixed map of a pinned cache; `None` for a replaceable one.
    pub closed spec fn pinned(&self) -> Option<Map<Seq<char>, FPDetail<FPValue>>> {
        self.lock.pred().pinned
    }

    /// A replaceable cache holding `repo` as its first snapshot.
    pub fn new(repo: Repository) -> (r: RepositoryCache)
        ensures
            r.pinned() is None,
    {
        let snapshot = Snapshot { repo, response: Ghost(repo@) };
        RepositoryCache { lock: RwLock::new(snapshot, Ghost(CachePred { pinned: None })) }
    }

    /// A cache pinned to `repo`: it can never be replaced, so every lookup
    /// is a lookup in exactly this map.
    pub fn new_pinned(repo: Repository) -> (r: RepositoryCache)
        ensures
            r.pinned() == Some(repo@),
    {
        let ghost pinned = Some(repo@);
        let snapshot = Snapshot { repo, response: Ghost(repo@) };
        RepositoryCache { lock: RwLock::new(snapshot, Ghost(CachePred { pinned })) }
    }

    /// Atomically discards the old snapshot and installs `new_repo`. The new
    /// map arrives fully built; the exclusive lock is held for the swap
    /// alone, so no reader observes a partially installed repository.
    pub fn replace(&self, new_repo: Repository)
        requires
            self.pinned() is None,
    {
        let (_old, write_handle) = self.lock.acquire_write();
        let snapshot = Snapshot { repo: new_repo, response: Ghost(new_repo@) };
        write_handle.release_write(snapshot);
    }

    /// The stored detail for `toggle` in the currently observable snapshot,
    /// cloned out from under a read lock. Whatever is returned is the lookup
    /// result in one single complete sync response — and, on a pinned cache,
    /// in exactly the pinned map.
    pub fn get_cloned(&self, toggle: &str) -> (r: Option<FPDetail<FPValue>>)
        ensures
            exists|resp: Map<Seq<char>, FPDetail<FPValue>>|
                opt_detail_model(r) == #[trigger] spec_lookup(resp, toggle@),
            (match self.pinned() {
                Some(m) => opt_detail_model(r) == spec_lookup(m, toggle@),
                None => true,
            }),
    {
        let read_handle = self.lock.acquire_read();
        let snapshot = read_handle.borrow();
        let r = match snapshot.repo.get(toggle) {
            Some(d) => Some(d.clone()),
            None => None,
        };
        proof {
            let resp = snapshot.response@;
            assert(opt_detail_model(r) == spec_lookup(resp, toggle@));
        }
        read_handle.release_read();
        r
    }
}

/// Any snapshot a reader of the cache can observe is exactly one complete
/// sync response: its map equals the response it was installed from, so a
/// reader never sees some keys of one response and some of another. On a
/// pinned cache it is, moreover, the pinned map itself.
pub proof fn lemma_observable_snapshot_is_one_response(cache: &RepositoryCache, s: Snapshot)
    requires
        cache.observable(s),
    ensures
        s.repo@ == s.response@,
        cache.pinned() matches Some(m) ==> s.repo@ == m,
{
}

} // verus!
