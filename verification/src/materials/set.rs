use std::sync::atomic::AtomicUsize;
use std::sync::atomic::Ordering;
use std::sync::{Arc, Weak};
use vstd::hash_map::StringHashMap;
use vstd::prelude::*;
use vstd::rwlock::{RwLock, RwLockPredicate};

verus! {

/// What a set of materials holds, as a value: how many users reference each
/// material (by name), and the version stamp of the current selection of
/// names.
pub struct MaterialsData {
    data: StringHashMap<usize>,
    version: usize,
}

/// The reference count of each material name.
pub type Counts = Map<Seq<char>, usize>;

/// The counts after one more reference to `m`.
pub open spec fn counts_after_add(counts: Counts, m: Seq<char>) -> Counts {
    if counts.contains_key(m) {
        counts.insert(m, (counts[m] + 1) as usize)
    } else {
        counts.insert(m, 1)
    }
}

/// The counts after one reference to `m` was dropped; a name leaves when its
/// last reference goes.
pub open spec fn counts_after_remove(counts: Counts, m: Seq<char>) -> Counts {
    if counts.contains_key(m) {
        if counts[m] > 1 {
            counts.insert(m, (counts[m] - 1) as usize)
        } else {
            counts.remove(m)
        }
    } else {
        counts
    }
}

/// The stamp of a set after one more reference to `m`, drawing `fresh`
/// when a name is inserted.
pub open spec fn stamp_after_add(counts: Counts, stamp: usize, m: Seq<char>, fresh: usize) -> usize {
    if counts.contains_key(m) {
        stamp
    } else {
        fresh
    }
}

/// The stamp of a set after one reference to `m` was dropped, drawing
/// `fresh` when a name leaves.
pub open spec fn stamp_after_remove(counts: Counts, stamp: usize, m: Seq<char>, fresh: usize) -> usize {
    if counts.contains_key(m) && counts[m] <= 1 {
        fresh
    } else {
        stamp
    }
}

/// The stamp of a set after a reference moved from `current` to `new`,
/// drawing `fresh` when the names change.
pub open spec fn stamp_after_replace(
    counts: Counts,
    stamp: usize,
    current: Seq<char>,
    new: Seq<char>,
    fresh: usize,
) -> usize {
    if replace_renames(counts, current, new) {
        fresh
    } else {
        stamp
    }
}

/// Every listed material is referenced at least once.
pub open spec fn counts_wf(counts: Counts) -> bool {
    forall|k: Seq<char>| #[trigger] counts.contains_key(k) ==> counts[k] >= 1
}

impl MaterialsData {
    pub closed spec fn counts(&self) -> Counts {
        self.data@
    }

    pub closed spec fn stamp(&self) -> usize {
        self.version
    }

    pub open spec fn wf(&self) -> bool {
        counts_wf(self.counts())
    }

    /// An empty selection, stamped with `version`.
    pub fn new(version: usize) -> (res: Self)
        ensures
            res.counts() == Map::<Seq<char>, usize>::empty(),
            res.stamp() == version,
            res.wf(),
    {
        MaterialsData { data: StringHashMap::new(), version }
    }

    /// The version stamp of the current selection of names.
    pub fn version(&self) -> (res: usize)
        ensures
            res == self.stamp(),
    {
        self.version
    }

    /// How many references `material` holds (0 when it is not listed).
    pub fn count(&self, material: &str) -> (res: usize)
        ensures
            self.counts().contains_key(material@) ==> res == self.counts()[material@],
            !self.counts().contains_key(material@) ==> res == 0,
    {
        match self.data.get(material) {
            Some(rc) => *rc,
            None => 0,
        }
    }

    /// Adds one reference to `material`. A name that was not listed yet is
    /// inserted, and the selection is then stamped with `fresh`.
    pub fn add(&mut self, material: &str, fresh: usize)
        requires
            old(self).wf(),
            old(self).counts().contains_key(material@) ==> old(self).counts()[material@] < usize::MAX,
        ensures
            final(self).wf(),
            final(self).counts() == counts_after_add(old(self).counts(), material@),
            final(self).stamp() == stamp_after_add(old(self).counts(), old(self).stamp(), material@, fresh),
    {
        match self.data.get(material) {
            Some(rc) => {
                let n = *rc + 1;
                self.data.insert(material.to_owned(), n);
            },
            None => {
                self.data.insert(material.to_owned(), 1);
                self.version = fresh;
            },
        }
    }
}


/// Whether replacing one reference to `current` by one to `new` changes the
/// selection of names, as the stamping rule sees it: the last reference to
/// `current` goes, or `new` was not listed once `current` was dropped.
pub open spec fn replace_renames(counts: Counts, current: Seq<char>, new: Seq<char>) -> bool {
    (counts.contains_key(current) && counts[current] <= 1)
        || !counts_after_remove(counts, current).contains_key(new)
}

impl MaterialsData {
    /// Drops one reference to `material`. When its last reference goes, the
    /// name leaves the selection, which is then stamped with `fresh`.
    pub fn remove(&mut self, material: &str, fresh: usize)
        requires
            old(self).wf(),
        ensures
            final(self).wf(),
            final(self).counts() == counts_after_remove(old(self).counts(), material@),
            final(self).stamp() == stamp_after_remove(old(self).counts(), old(self).stamp(), material@, fresh),
    {
        match self.data.get(material) {
            Some(rc) => {
                if *rc > 1 {
                    let n = *rc - 1;
                    self.data.insert(material.to_owned(), n);
                } else {
                    self.data.remove(material);
                    self.version = fresh;
                }
            },
            None => {},
        }
    }

    /// Whether `replace(current, new, _)` would stamp the selection anew.
    pub fn replace_renames(&self, current: &str, new: &str) -> (res: bool)
        requires
            self.wf(),
        ensures
            res == replace_renames(self.counts(), current@, new@),
    {
        self.count(current) == 1 || self.count(new) == 0
    }

    /// Moves one reference from `current` to `new`: the reference to
    /// `current` is dropped as by `remove`, then one to `new` is added as by
    /// `add`. When this drops the last reference to `current` or inserts a
    /// name, the selection is stamped with `fresh`.
    pub fn replace(&mut self, current: &str, new: &str, fresh: usize)
        requires
            old(self).wf(),
            counts_after_remove(old(self).counts(), current@).contains_key(new@)
                ==> counts_after_remove(old(self).counts(), current@)[new@] < usize::MAX,
        ensures
            final(self).wf(),
            final(self).counts() == counts_after_add(
                counts_after_remove(old(self).counts(), current@),
                new@,
            ),
            final(self).stamp() == stamp_after_replace(
                old(self).counts(),
                old(self).stamp(),
                current@,
                new@,
                fresh,
            ),
    {
        let mut update = false;
        match self.data.get(current) {
            Some(rc) => {
                if *rc > 1 {
                    let n = *rc - 1;
                    self.data.insert(current.to_owned(), n);
                } else {
                    self.data.remove(current);
                    update = true;
                }
            },
            None => {},
        }
        match self.data.get(new) {
            Some(rc) => {
                let n = *rc + 1;
                self.data.insert(new.to_owned(), n);
            },
            None => {
                self.data.insert(new.to_owned(), 1);
                update = true;
            },
        }
        if update {
            self.version = fresh;
        }
    }
}

impl MaterialsData {
    /// Adds one reference to `material`, stamping the selection with a stamp
    /// drawn from `versions` when the name is new. The stamp changes exactly
    /// when the name was not listed.
    pub fn add_drawing(&mut self, material: &str, versions: &VersionSource)
        requires
            old(self).wf(),
            old(self).counts().contains_key(material@) ==> old(self).counts()[material@] < usize::MAX,
        ensures
            final(self).wf(),
            final(self).counts() == counts_after_add(old(self).counts(), material@),
            final(self).stamp() != old(self).stamp() <==> !old(self).counts().contains_key(material@),
    {
        let fresh = if self.count(material) == 0 {
            versions.next_other(self.version())
        } else {
            self.version()
        };
        self.add(material, fresh);
    }

    /// Drops one reference to `material`, stamping the selection with a
    /// stamp drawn from `versions` when its last reference goes. The stamp
    /// changes exactly when the name leaves the selection.
    pub fn remove_drawing(&mut self, material: &str, versions: &VersionSource)
        requires
            old(self).wf(),
        ensures
            final(self).wf(),
            final(self).counts() == counts_after_remove(old(self).counts(), material@),
            final(self).stamp() != old(self).stamp() <==> (old(self).counts().contains_key(material@)
                && old(self).counts()[material@] <= 1),
    {
        let fresh = if self.count(material) == 1 {
            versions.next_other(self.version())
        } else {
            self.version()
        };
        self.remove(material, fresh);
    }

    /// Moves one reference from `current` to `new`, stamping the selection
    /// with a stamp drawn from `versions` when this changes the names (see
    /// `replace_renames`). The stamp changes exactly then: in particular when
    /// `new` was not listed, or when the last reference to `current` goes.
    pub fn replace_drawing(&mut self, current: &str, new: &str, versions: &VersionSource)
        requires
            old(self).wf(),
            counts_after_remove(old(self).counts(), current@).contains_key(new@)
                ==> counts_after_remove(old(self).counts(), current@)[new@] < usize::MAX,
        ensures
            final(self).wf(),
            final(self).counts() == counts_after_add(
                counts_after_remove(old(self).counts(), current@),
                new@,
            ),
            final(self).stamp() != old(self).stamp() <==> replace_renames(
                old(self).counts(),
                current@,
                new@,
            ),
    {
        let fresh = if self.replace_renames(current, new) {
            versions.next_other(self.version())
        } else {
            self.version()
        };
        self.replace(current, new, fresh);
    }
}


// ===============================================================================================
//
// Laws of the reference counts.
//
// ===============================================================================================

/// Dropping a reference to a material right after adding one gives back the
/// counts as they were.
pub proof fn law_remove_undoes_add(counts: Counts, m: Seq<char>)
    requires
        counts_wf(counts),
        counts.contains_key(m) ==> counts[m] < usize::MAX,
    ensures
        counts_after_remove(counts_after_add(counts, m), m) == counts,
{
    if counts.contains_key(m) {
        assert(counts_after_remove(counts_after_add(counts, m), m) =~= counts);
    } else {
        assert(counts_after_remove(counts_after_add(counts, m), m) =~= counts);
    }
}

/// Adding a reference changes the selection of names exactly when the
/// material was not listed: the case in which `add` stamps a new version.
pub proof fn law_add_stamps_new_names(counts: Counts, m: Seq<char>)
    ensures
        counts_after_add(counts, m).dom() == counts.dom().insert(m),
        (counts_after_add(counts, m).dom() == counts.dom()) <==> counts.contains_key(m),
{
    assert(counts_after_add(counts, m).dom() =~= counts.dom().insert(m));
    if counts.contains_key(m) {
        assert(counts.dom().insert(m) =~= counts.dom());
    } else {
        assert(!counts.dom().contains(m));
        assert(counts_after_add(counts, m).dom().contains(m));
    }
}

/// Dropping a reference changes the selection of names exactly when it was
/// the last reference: the case in which `remove` stamps a new version.
pub proof fn law_remove_stamps_lost_names(counts: Counts, m: Seq<char>)
    requires
        counts_wf(counts),
    ensures
        (counts_after_remove(counts, m).dom() == counts.dom()) <==> !(counts.contains_key(m)
            && counts[m] <= 1),
{
    if counts.contains_key(m) {
        if counts[m] > 1 {
            assert(counts_after_remove(counts, m).dom() =~= counts.dom());
        } else {
            assert(counts_after_remove(counts, m).dom() =~= counts.dom().remove(m));
            assert(!counts_after_remove(counts, m).dom().contains(m));
        }
    } else {
        assert(counts_after_remove(counts, m).dom() =~= counts.dom());
    }
}

/// `replace` stamps a new version whenever the selection of names changes,
/// and otherwise only when a material's single reference is replaced by
/// itself.
pub proof fn law_replace_stamps_renames(counts: Counts, current: Seq<char>, new: Seq<char>)
    requires
        counts_wf(counts),
    ensures
        counts_after_add(counts_after_remove(counts, current), new).dom() != counts.dom()
            ==> replace_renames(counts, current, new),
        replace_renames(counts, current, new) && counts_after_add(
            counts_after_remove(counts, current),
            new,
        ).dom() == counts.dom() ==> current == new,
{
    let after = counts_after_add(counts_after_remove(counts, current), new);
    law_add_stamps_new_names(counts_after_remove(counts, current), new);
    law_remove_stamps_lost_names(counts, current);
    if !replace_renames(counts, current, new) {
        assert(after.dom() =~= counts.dom());
    }
    if replace_renames(counts, current, new) && after.dom() == counts.dom() && current != new {
        if counts.contains_key(current) && counts[current] <= 1 {
            assert(!after.dom().contains(current));
            assert(counts.dom().contains(current));
        } else {
            assert(after.dom().contains(new));
            assert(!counts.dom().contains(new));
        }
    }
}

/// Replacing a listed material by itself leaves the counts as they were.
pub proof fn law_replace_self_keeps_counts(counts: Counts, m: Seq<char>)
    requires
        counts_wf(counts),
        counts.contains_key(m),
        counts[m] < usize::MAX,
    ensures
        counts_after_add(counts_after_remove(counts, m), m) == counts,
{
    assert(counts_after_add(counts_after_remove(counts, m), m) =~= counts);
}

/// References are counted irrespective of the order in which they were
/// added.
pub proof fn law_add_commutes(counts: Counts, a: Seq<char>, b: Seq<char>)
    ensures
        counts_after_add(counts_after_add(counts, a), b) == counts_after_add(
            counts_after_add(counts, b),
            a,
        ),
{
    assert(counts_after_add(counts_after_add(counts, a), b) =~= counts_after_add(
        counts_after_add(counts, b),
        a,
    ));
}

// ===============================================================================================
//
// Shared handles.
//
// ===============================================================================================

/// A `std::sync::Weak` on the shared state of a set, held opaquely: Verus
/// refuses the declaration of `Weak` itself (it carries an allocator
/// parameter).
#[verifier::external_body]
struct WeakShared {
    weak: Weak<Shared>,
}

/// The invariant that a materials set keeps behind its lock.
pub struct CountsWf;

impl RwLockPredicate<MaterialsData> for CountsWf {
    open spec fn inv(self, v: MaterialsData) -> bool {
        v.wf()
    }
}

/// A source of version stamps, shared by every set that draws from it.
#[derive(Clone)]
pub struct VersionSource {
    counter: Arc<AtomicUsize>,
}

impl VersionSource {
    /// A source whose first stamp is 0. The counter is a std atomic, of
    /// which vstd models no value, so no clause states it.
    pub fn new() -> Self {
        VersionSource { counter: Arc::new(AtomicUsize::new(0)) }
    }

    /// Draws the next stamp. Stamps are drawn in increasing order from the
    /// shared counter (wrapping at overflow), so the value depends on every
    /// earlier draw from any clone of this source: nothing is stated of it.
    pub fn next(&self) -> usize {
        self.counter.fetch_add(1, Ordering::SeqCst)
    }

    /// Draws a stamp other than `current`: the next stamp, or, should the
    /// counter have wrapped around onto `current`, the stamp after it.
    pub fn next_other(&self, current: usize) -> (res: usize)
        ensures
            res != current,
    {
        let v = self.next();
        if v == current {
            if v == usize::MAX {
                0
            } else {
                v + 1
            }
        } else {
            v
        }
    }
}

struct Shared {
    lock: RwLock<MaterialsData, CountsWf>,
    versions: VersionSource,
}

/// A set of materials shared between the objects that use it. Clones are
/// handles on the same set.
#[derive(Clone)]
pub struct MaterialsSet {
    inner: Arc<Shared>,
}

/// A non-owning handle on a materials set, held by a geometry whose
/// materials the set must follow.
pub struct MaterialsSubscriber {
    inner: WeakShared,
}

/// `std::sync::Arc::downgrade`: a weak handle on the allocation of `arc`.
#[verifier::external_body]
fn downgrade(arc: &Arc<Shared>) -> WeakShared {
    WeakShared { weak: Arc::downgrade(arc) }
}

/// `std::sync::Weak::upgrade`: a strong handle on the allocation, unless it
/// was dropped. Whether it was depends on the other handles, so the result
/// is left free.
#[verifier::external_body]
fn upgrade(weak: &WeakShared) -> Option<Arc<Shared>> {
    weak.weak.upgrade()
}

/// `std::sync::Weak::strong_count`: how many strong handles are alive. This
/// depends on the other handles, so the result is left free.
#[verifier::external_body]
fn strong_count(weak: &WeakShared) -> usize {
    weak.weak.strong_count()
}

/// `std::sync::Weak::ptr_eq`: whether two weak handles point at the same
/// allocation. This compares addresses, so the result is left free.
#[verifier::external_body]
fn weak_ptr_eq(a: &WeakShared, b: &WeakShared) -> bool {
    a.weak.ptr_eq(&b.weak)
}

impl MaterialsSet {
    /// An empty set, stamped with a version drawn from `versions`. Its
    /// contents live behind the lock that all its clones share, so the
    /// handle has no view that a clause could speak of.
    pub fn new(versions: &VersionSource) -> Self {
        let version = versions.next();
        let data = MaterialsData::new(version);
        let lock = RwLock::new(data, Ghost(CountsWf));
        MaterialsSet { inner: Arc::new(Shared { lock, versions: versions.clone() }) }
    }

    /// A weak handle on this set. The handle holds only the address of the
    /// set's allocation, which is given no name.
    pub fn subscribe(&self) -> MaterialsSubscriber {
        MaterialsSubscriber { inner: downgrade(&self.inner) }
    }

    /// Adds one reference to `material` (see `MaterialsData::add`); a new
    /// name stamps the set with a fresh version. A material that already holds
    /// `usize::MAX` references keeps its count.
    pub fn add(&self, material: &str) {
        let (mut data, handle) = self.inner.lock.acquire_write();
        if data.count(material) < usize::MAX {
            data.add_drawing(material, &self.inner.versions);
        }
        handle.release_write(data);
    }

    /// Drops one reference to `material` (see `MaterialsData::remove`); when
    /// its last reference goes, the set is stamped with a fresh version.
    pub fn remove(&self, material: &str) {
        let (mut data, handle) = self.inner.lock.acquire_write();
        data.remove_drawing(material, &self.inner.versions);
        handle.release_write(data);
    }

    /// The current version stamp of the set: whatever the last change by any
    /// clone of this set stamped it with, so no clause states the value.
    pub fn version(&self) -> usize {
        let handle = self.inner.lock.acquire_read();
        let version = handle.borrow().version();
        handle.release_read();
        version
    }

    /// How many references `material` holds in the set, as left by the
    /// changes of all the clones of this set: no clause states the value.
    pub fn count(&self, material: &str) -> usize {
        let handle = self.inner.lock.acquire_read();
        let rc = handle.borrow().count(material);
        handle.release_read();
        rc
    }
}

impl MaterialsSubscriber {
    /// Whether the set is still held by some `MaterialsSet` handle: this
    /// depends on the other handles, so no clause states it.
    pub fn is_alive(&self) -> bool {
        strong_count(&self.inner) > 0
    }

    /// Whether this subscriber follows `set`: a comparison of addresses, so
    /// no clause states it.
    pub fn is_subscribed(&self, set: &MaterialsSet) -> bool {
        let other = downgrade(&set.inner);
        weak_ptr_eq(&self.inner, &other)
    }

    /// Moves one reference from `current` to `new` in the followed set (see
    /// `MaterialsData::replace`), and returns `true`; returns `false`, and does
    /// nothing, when the set was dropped. A material that already holds
    /// `usize::MAX` references is left as it is.
    pub fn replace(&self, current: &str, new: &str) -> bool {
        match upgrade(&self.inner) {
            None => false,
            Some(shared) => {
                let (mut data, handle) = shared.lock.acquire_write();
                if data.count(new) < usize::MAX {
                    data.replace_drawing(current, new, &shared.versions);
                }
                handle.release_write(data);
                true
            },
        }
    }
}

} // verus!
