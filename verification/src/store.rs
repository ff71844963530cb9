//! The process-wide record store.
//!
//! An ordered, append-only sequence of records with a lazily enforced
//! retention cap, plus the category table: every category (target) ever
//! seen, each with its own visibility flag, set on first sight from the
//! sink's default and toggled explicitly afterwards. The store also carries
//! an epoch counter that changes whenever records leave the store other
//! than by the caller's own trimming, so that a viewer can tell that its
//! position-aligned caches are stale.

use vstd::prelude::*;
use vstd::string::StrSliceExecFns;
use crate::record::{LogRecord, RecordView};
use crate::clock::Timestamp;
use crate::textutil::str_eq;

verus! {

/// One category (log target) and whether its records are shown.
pub struct Category {
    pub name: String,
    pub enabled: bool,
}

/// The mathematical image of one category entry.
#[verifier::ext_equal]
pub ghost struct CategoryView {
    pub name: Seq<char>,
    pub enabled: bool,
}

impl View for Category {
    type V = CategoryView;

    open spec fn view(&self) -> CategoryView {
        CategoryView { name: self.name@, enabled: self.enabled }
    }
}

/// The visibility flag of `name` in the category table: `None` when the
/// category has never been seen.
pub open spec fn cat_lookup(cats: Seq<CategoryView>, name: Seq<char>) -> Option<bool>
    decreases cats.len(),
{
    if cats.len() == 0 {
        None
    } else if cats.last().name == name {
        Some(cats.last().enabled)
    } else {
        cat_lookup(cats.drop_last(), name)
    }
}

/// No two entries of the category table share a name.
pub open spec fn cats_unique(cats: Seq<CategoryView>) -> bool {
    forall|i: int, j: int| 0 <= i < j < cats.len() ==> cats[i].name != cats[j].name
}

/// The epoch after one invalidating change.
pub open spec fn next_epoch(e: u64) -> u64 {
    if e == u64::MAX {
        0
    } else {
        (e + 1) as u64
    }
}

/// How many records an `len`-record store sheds to meet `cap`.
pub open spec fn evict_count(len: int, cap: int) -> int {
    if len > cap {
        len - cap
    } else {
        0
    }
}

/// The process-wide record store.
pub struct LogStore {
    pub(crate) records: Vec<LogRecord>,
    pub(crate) categories: Vec<Category>,
    pub(crate) max_category_length: usize,
    pub(crate) start_time: Timestamp,
    pub(crate) epoch: u64,
}

/// The mathematical image of the store.
#[verifier::ext_equal]
pub ghost struct StoreView {
    pub records: Seq<RecordView>,
    pub categories: Seq<CategoryView>,
    pub max_category_length: int,
    pub start_time: Timestamp,
    pub epoch: u64,
}

impl View for LogStore {
    type V = StoreView;

    closed spec fn view(&self) -> StoreView {
        StoreView {
            records: self.records@.map_values(|r: LogRecord| r@),
            categories: self.categories@.map_values(|c: Category| c@),
            max_category_length: self.max_category_length as int,
            start_time: self.start_time,
            epoch: self.epoch,
        }
    }
}

impl LogStore {
    /// Structural invariant: category names are unique.
    pub open spec fn inv(&self) -> bool {
        cats_unique(self@.categories)
    }

    /// An empty store created at `start_time`.
    pub fn new(start_time: Timestamp) -> (s: LogStore)
        ensures
            s@ == (StoreView {
                records: Seq::<RecordView>::empty(),
                categories: Seq::<CategoryView>::empty(),
                max_category_length: 0,
                start_time,
                epoch: 0,
            }),
            s.inv(),
    {
        let s = LogStore {
            records: Vec::new(),
            categories: Vec::new(),
            max_category_length: 0,
            start_time,
            epoch: 0,
        };
        proof {
            assert(s@.records =~= Seq::<RecordView>::empty());
            assert(s@.categories =~= Seq::<CategoryView>::empty());
        }
        s
    }

    /// Read-only access to the retained records, oldest first.
    pub fn current_records(&self) -> (r: &Vec<LogRecord>)
        ensures
            r@.map_values(|x: LogRecord| x@) == self@.records,
    {
        &self.records
    }

    /// The number of retained records.
    pub fn len(&self) -> (n: usize)
        ensures
            n == self@.records.len(),
    {
        self.records.len()
    }

    /// Read-only access to the category table.
    pub fn categories(&self) -> (r: &Vec<Category>)
        ensures
            r@.map_values(|c: Category| c@) == self@.categories,
    {
        &self.categories
    }

    /// The widest category name seen so far (a running maximum; it does not
    /// shrink when records are evicted).
    pub fn max_category_length(&self) -> (n: usize)
        ensures
            n == self@.max_category_length,
    {
        self.max_category_length
    }

    /// The instant the store was created, the origin for elapsed-time
    /// rendering.
    pub fn start_time(&self) -> (t: Timestamp)
        ensures
            t == self@.start_time,
    {
        self.start_time
    }

    /// The current cache epoch.
    pub fn epoch(&self) -> (e: u64)
        ensures
            e == self@.epoch,
    {
        self.epoch
    }

    /// Read-only access to one retained record.
    pub fn record_at(&self, i: usize) -> (r: &LogRecord)
        requires
            i < self@.records.len(),
        ensures
            r@ == self@.records[i as int],
    {
        &self.records[i]
    }

    /// The visibility flag of one category, `None` when it has never been
    /// seen.
    pub fn category_enabled(&self, name: &str) -> (r: Option<bool>)
        requires
            self.inv(),
        ensures
            r == cat_lookup(self@.categories, name@),
    {
        let n = self.categories.len();
        let mut i: usize = 0;
        while i < n
            invariant
                self.inv(),
                n == self.categories.len(),
                i <= n,
                forall|k: int| 0 <= k < i ==> self@.categories[k].name != name@,
            decreases n - i,
        {
            if str_eq(self.categories[i].name.as_str(), name) {
                proof {
                    lemma_cat_lookup_at_index(self@.categories, i as int);
                }
                return Some(self.categories[i].enabled);
            }
            i = i + 1;
        }
        proof {
            lemma_cat_lookup_absent(self@.categories, name@);
        }
        None
    }

    /// Appends one record at the back. The retention cap is not enforced
    /// here; it is enforced lazily at the next view refresh.
    pub fn append(&mut self, record: LogRecord)
        requires
            old(self).inv(),
        ensures
            final(self).inv(),
            final(self)@ == (StoreView {
                records: old(self)@.records.push(record@),
                ..old(self)@
            }),
    {
        self.records.push(record);
        proof {
            assert(self@.records =~= old(self)@.records.push(record@));
            assert(self@ =~= (StoreView { records: self@.records, ..old(self)@ }));
        }
    }

    /// Records that a category was seen: on first sight it enters the table
    /// with `default_enabled` as its flag and widens the category column if
    /// its name is the longest so far; afterwards the sighting changes
    /// nothing.
    pub fn note_category(&mut self, target: &str, default_enabled: bool)
        requires
            old(self).inv(),
        ensures
            final(self).inv(),
            final(self)@ == if cat_lookup(old(self)@.categories, target@) is Some {
                old(self)@
            } else {
                StoreView {
                    categories: old(self)@.categories.push(
                        CategoryView { name: target@, enabled: default_enabled },
                    ),
                    max_category_length: if target@.len() > old(self)@.max_category_length {
                        target@.len() as int
                    } else {
                        old(self)@.max_category_length
                    },
                    ..old(self)@
                }
            },
    {
        if self.category_enabled(target).is_none() {
            let entry = Category { name: String::from_str(target), enabled: default_enabled };
            self.categories.push(entry);
            let width = target.unicode_len();
            if width > self.max_category_length {
                self.max_category_length = width;
            }
            proof {
                assert(self@.categories =~= old(self)@.categories.push(
                    CategoryView { name: target@, enabled: default_enabled },
                ));
                lemma_cat_lookup_push_fresh(
                    old(self)@.categories,
                    CategoryView { name: target@, enabled: default_enabled },
                );
                assert(self@ =~= (StoreView {
                    categories: self@.categories,
                    max_category_length: self@.max_category_length,
                    ..old(self)@
                }));
            }
        }
    }

    /// Sets the visibility flag of one category, inserting it when it was
    /// never seen. Every other category keeps its flag.
    pub fn set_category_enabled(&mut self, category: String, enabled: bool)
        requires
            old(self).inv(),
        ensures
            final(self).inv(),
            cat_lookup(final(self)@.categories, category@) == Some(enabled),
            forall|n: Seq<char>|
                n != category@ ==> #[trigger] cat_lookup(final(self)@.categories, n) == cat_lookup(
                    old(self)@.categories,
                    n,
                ),
            final(self)@ == (StoreView { categories: final(self)@.categories, ..old(self)@ }),
    {
        let ghost old_cats = self@.categories;
        let n = self.categories.len();
        let mut i: usize = 0;
        while i < n
            invariant
                old(self).inv(),
                *self == *old(self),
                old_cats == old(self)@.categories,
                cats_unique(old_cats),
                n == self.categories.len(),
                i <= n,
                forall|k: int| 0 <= k < i ==> self@.categories[k].name != category@,
            decreases n - i,
        {
            if str_eq(self.categories[i].name.as_str(), category.as_str()) {
                let entry = Category { name: category, enabled };
                self.categories.remove(i);
                self.categories.insert(i, entry);
                proof {
                    assert(self.categories@ =~= old(self).categories@.update(i as int, entry));
                    assert(self@.categories =~= old_cats.update(
                        i as int,
                        CategoryView { name: old_cats[i as int].name, enabled },
                    ));
                    lemma_cat_lookup_update(old_cats, i as int, enabled);
                    assert(self@ =~= (StoreView { categories: self@.categories, ..old(self)@ }));
                }
                return ;
            }
            i = i + 1;
        }
        proof {
            lemma_cat_lookup_absent(self@.categories, category@);
        }
        let entry = Category { name: category, enabled };
        self.categories.push(entry);
        proof {
            assert(self@.categories =~= old_cats.push(
                CategoryView { name: category@, enabled },
            ));
            lemma_cat_lookup_push_fresh(old_cats, CategoryView { name: category@, enabled });
            assert(self@ =~= (StoreView { categories: self@.categories, ..old(self)@ }));
        }
    }

    /// Empties the retained records; the category table, the column width
    /// and the start time stay. Viewers observe the change through the
    /// epoch.
    pub fn clear(&mut self)
        requires
            old(self).inv(),
        ensures
            final(self).inv(),
            final(self)@ == (StoreView {
                records: Seq::<RecordView>::empty(),
                epoch: next_epoch(old(self)@.epoch),
                ..old(self)@
            }),
    {
        self.records.clear();
        self.epoch = self.epoch.wrapping_add(1);
        proof {
            assert(self@.records =~= Seq::<RecordView>::empty());
            assert(self@ =~= (StoreView {
                records: Seq::<RecordView>::empty(),
                epoch: next_epoch(old(self)@.epoch),
                ..old(self)@
            }));
        }
    }

    /// Sheds the oldest records until at most `cap` remain, returning how
    /// many left. The epoch changes exactly when records were shed, so
    /// viewers other than the caller observe the eviction.
    pub fn trim_to(&mut self, cap: usize) -> (k: usize)
        requires
            old(self).inv(),
        ensures
            final(self).inv(),
            k as int == evict_count(old(self)@.records.len() as int, cap as int),
            final(self)@ == (StoreView {
                records: old(self)@.records.skip(k as int),
                epoch: if k > 0 {
                    next_epoch(old(self)@.epoch)
                } else {
                    old(self)@.epoch
                },
                ..old(self)@
            }),
    {
        let len = self.records.len();
        if len <= cap {
            proof {
                assert(self@ =~= (StoreView {
                    records: old(self)@.records.skip(0),
                    ..old(self)@
                }));
            }
            return 0;
        }
        let k = len - cap;
        let mut i: usize = 0;
        while i < k
            invariant
                old(self).inv(),
                i <= k,
                k <= old(self).records@.len(),
                self.categories == old(self).categories,
                self.max_category_length == old(self).max_category_length,
                self.start_time == old(self).start_time,
                self.epoch == old(self).epoch,
                self.records@ == old(self).records@.skip(i as int),
            decreases k - i,
        {
            self.records.remove(0);
            i = i + 1;
            proof {
                assert(self.records@ =~= old(self).records@.skip(i as int));
            }
        }
        self.epoch = self.epoch.wrapping_add(1);
        proof {
            assert(self@.records =~= old(self)@.records.skip(k as int));
            assert(self@ =~= (StoreView {
                records: old(self)@.records.skip(k as int),
                epoch: next_epoch(old(self)@.epoch),
                ..old(self)@
            }));
        }
        k
    }
}

/// Looking a name up after updating the flag at its own index yields the
/// new flag; every other name resolves as before.
pub proof fn lemma_cat_lookup_update(cats: Seq<CategoryView>, i: int, enabled: bool)
    requires
        cats_unique(cats),
        0 <= i < cats.len(),
    ensures
        cats_unique(cats.update(i, CategoryView { name: cats[i].name, enabled })),
        cat_lookup(cats.update(i, CategoryView { name: cats[i].name, enabled }), cats[i].name)
            == Some(enabled),
        forall|n: Seq<char>|
            n != cats[i].name ==> #[trigger] cat_lookup(
                cats.update(i, CategoryView { name: cats[i].name, enabled }),
                n,
            ) == cat_lookup(cats, n),
    decreases cats.len(),
{
    let entry = CategoryView { name: cats[i].name, enabled };
    let updated = cats.update(i, entry);
    assert forall|a: int, b: int| 0 <= a < b < updated.len() implies updated[a].name
        != updated[b].name by {
        assert(updated[a].name == cats[a].name);
        assert(updated[b].name == cats[b].name);
    }
    if i == cats.len() - 1 {
        assert(updated.last() == entry);
        assert(updated.drop_last() =~= cats.drop_last());
        assert forall|n: Seq<char>| n != cats[i].name implies #[trigger] cat_lookup(updated, n)
            == cat_lookup(cats, n) by {
            assert(cat_lookup(updated, n) == cat_lookup(updated.drop_last(), n));
            assert(cat_lookup(cats, n) == cat_lookup(cats.drop_last(), n));
        }
    } else {
        let dropped = cats.drop_last();
        assert forall|a: int, b: int| 0 <= a < b < dropped.len() implies dropped[a].name
            != dropped[b].name by {
            assert(dropped[a] == cats[a]);
            assert(dropped[b] == cats[b]);
        }
        assert(dropped[i] == cats[i]);
        lemma_cat_lookup_update(dropped, i, enabled);
        assert(updated.drop_last() =~= dropped.update(i, entry));
        assert(updated.last() == cats.last());
        assert(cats[i].name != cats.last().name);
        assert(cat_lookup(updated, cats[i].name) == cat_lookup(updated.drop_last(), cats[i].name));
        assert forall|n: Seq<char>| n != cats[i].name implies #[trigger] cat_lookup(updated, n)
            == cat_lookup(cats, n) by {
            if n == cats.last().name {
                assert(cat_lookup(updated, n) == Some(updated.last().enabled));
                assert(cat_lookup(cats, n) == Some(cats.last().enabled));
            } else {
                assert(cat_lookup(updated, n) == cat_lookup(updated.drop_last(), n));
                assert(cat_lookup(cats, n) == cat_lookup(dropped, n));
            }
        }
    }
}

/// Pushing a never-seen category makes it resolvable; every other name
/// resolves as before, and uniqueness is preserved.
pub proof fn lemma_cat_lookup_push_fresh(cats: Seq<CategoryView>, c: CategoryView)
    requires
        cats_unique(cats),
        cat_lookup(cats, c.name) is None,
    ensures
        cats_unique(cats.push(c)),
        cat_lookup(cats.push(c), c.name) == Some(c.enabled),
        forall|n: Seq<char>|
            n != c.name ==> #[trigger] cat_lookup(cats.push(c), n) == cat_lookup(cats, n),
    decreases cats.len(),
{
    lemma_cat_lookup_none_means_absent(cats, c.name);
    let pushed = cats.push(c);
    assert(pushed.drop_last() =~= cats);
    assert(pushed.last() == c);
    assert forall|a: int, b: int| 0 <= a < b < pushed.len() implies pushed[a].name
        != pushed[b].name by {
        assert(pushed[a] == cats[a]);
        if b < cats.len() {
            assert(pushed[b] == cats[b]);
        } else {
            assert(pushed[b] == c);
        }
    }
    assert forall|n: Seq<char>| n != c.name implies #[trigger] cat_lookup(pushed, n)
        == cat_lookup(cats, n) by {
        assert(cat_lookup(pushed, n) == cat_lookup(pushed.drop_last(), n));
    }
}

/// A name that resolves to nothing appears nowhere in the table.
pub proof fn lemma_cat_lookup_none_means_absent(cats: Seq<CategoryView>, name: Seq<char>)
    requires
        cat_lookup(cats, name) is None,
    ensures
        forall|k: int| 0 <= k < cats.len() ==> cats[k].name != name,
    decreases cats.len(),
{
    if cats.len() > 0 {
        lemma_cat_lookup_none_means_absent(cats.drop_last(), name);
        assert forall|k: int| 0 <= k < cats.len() implies cats[k].name != name by {
            if k < cats.len() - 1 {
                assert(cats.drop_last()[k] == cats[k]);
            }
        }
    }
}

/// A name that appears at some index of a duplicate-free table resolves to
/// that entry's flag.
pub proof fn lemma_cat_lookup_at_index(cats: Seq<CategoryView>, i: int)
    requires
        cats_unique(cats),
        0 <= i < cats.len(),
    ensures
        cat_lookup(cats, cats[i].name) == Some(cats[i].enabled),
    decreases cats.len(),
{
    if i == cats.len() - 1 {
    } else {
        assert(cats[i].name != cats.last().name);
        lemma_cat_lookup_at_index(cats.drop_last(), i);
        assert(cats.drop_last()[i] == cats[i]);
    }
}

/// A name that appears at no index of the table resolves to nothing.
pub proof fn lemma_cat_lookup_absent(cats: Seq<CategoryView>, name: Seq<char>)
    requires
        forall|k: int| 0 <= k < cats.len() ==> cats[k].name != name,
    ensures
        cat_lookup(cats, name) is None,
    decreases cats.len(),
{
    if cats.len() > 0 {
        assert forall|k: int| 0 <= k < cats.drop_last().len() implies cats.drop_last()[k].name
            != name by {
            assert(cats.drop_last()[k] == cats[k]);
        }
        lemma_cat_lookup_absent(cats.drop_last(), name);
    }
}

/// Empties the retained records of `store`; categories and column width
/// stay. Viewers observe the change through the epoch.
pub fn clear_logs(store: &mut LogStore)
    requires
        old(store).inv(),
    ensures
        final(store).inv(),
        final(store)@ == (StoreView {
            records: Seq::<RecordView>::empty(),
            epoch: next_epoch(old(store)@.epoch),
            ..old(store)@
        }),
{
    store.clear();
}

} // verus!
