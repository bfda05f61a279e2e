//! The store's two queries, as a model over rows in insertion order, and an
//! in-memory store that answers them.
//!
//! Titles are compared character for character: a query matches the titles
//! that begin with it, in the same case. A backing store with another
//! collation may fold case; this model does not.

use vstd::prelude::*;
use crate::record::{records_view, CardRecord, CardRecordView};
use crate::text::{is_prefix, same_text, starts_with};

verus! {

/// The rows of `store` whose title begins with `query`, in insertion order.
pub open spec fn matching(store: Seq<CardRecordView>, query: Seq<char>) -> Seq<CardRecordView>
    decreases store.len(),
{
    if store.len() == 0 {
        Seq::empty()
    } else if is_prefix(query, store.last().title) {
        matching(store.drop_last(), query).push(store.last())
    } else {
        matching(store.drop_last(), query)
    }
}

/// The answer to a prefix query: the first `limit` rows whose title begins
/// with `query`, in insertion order.
pub open spec fn find_by_prefix(store: Seq<CardRecordView>, query: Seq<char>, limit: nat) -> Seq<
    CardRecordView,
> {
    let all = matching(store, query);
    if all.len() <= limit {
        all
    } else {
        all.take(limit as int)
    }
}

/// `i` is the position of the first row of `store` titled `title`.
pub open spec fn is_first_titled(store: Seq<CardRecordView>, title: Seq<char>, i: int) -> bool {
    &&& 0 <= i < store.len()
    &&& store[i].title == title
    &&& forall|j: int| 0 <= j < i ==> store[j].title != title
}

/// The answer to an exact query: the first row titled `title`, if there is one.
pub open spec fn find_exact(store: Seq<CardRecordView>, title: Seq<char>) -> Option<CardRecordView>
    decreases store.len(),
{
    if store.len() == 0 {
        None
    } else if store[0].title == title {
        Some(store[0])
    } else {
        find_exact(store.drop_first(), title)
    }
}

/// The exact query returns the first row with the title, and nothing only
/// when no row has it.
pub proof fn find_exact_is_first(store: Seq<CardRecordView>, title: Seq<char>)
    ensures
        find_exact(store, title) is None <==> forall|i: int|
            0 <= i < store.len() ==> store[i].title != title,
        find_exact(store, title) matches Some(r) ==> exists|i: int|
            is_first_titled(store, title, i) && store[i] == r,
    decreases store.len(),
{
    if store.len() > 0 && store[0].title == title {
        assert(is_first_titled(store, title, 0));
    } else if store.len() > 0 {
        let rest = store.drop_first();
        find_exact_is_first(rest, title);
        assert(forall|i: int| 0 < i < store.len() ==> store[i] == rest[i - 1]);
        if find_exact(rest, title) is Some {
            let i = choose|i: int|
                is_first_titled(rest, title, i) && rest[i] == find_exact(rest, title)->0;
            assert(is_first_titled(store, title, i + 1));
        }
    }
}

/// Every row that a prefix query selects is a row of the store whose title
/// begins with the query; rows come out in insertion order; and a row of the
/// store whose title begins with the query is selected.
pub proof fn matching_is_ordered_selection(store: Seq<CardRecordView>, query: Seq<char>)
    ensures
        forall|k: int|
            0 <= k < matching(store, query).len() ==> is_prefix(
                query,
                (#[trigger] matching(store, query)[k]).title,
            ),
        forall|k: int|
            0 <= k < matching(store, query).len() ==> store.contains(
                #[trigger] matching(store, query)[k],
            ),
        forall|i: int|
            0 <= i < store.len() && is_prefix(query, (#[trigger] store[i]).title) ==> matching(
                store,
                query,
            ).contains(store[i]),
    decreases store.len(),
{
    if store.len() > 0 {
        let init = store.drop_last();
        let m = matching(store, query);
        let mi = matching(init, query);
        matching_is_ordered_selection(init, query);
        assert forall|k: int| 0 <= k < m.len() implies store.contains(#[trigger] m[k]) by {
            if k < mi.len() {
                let w = choose|w: int| 0 <= w < init.len() && init[w] == mi[k];
                assert(store[w] == m[k]);
            } else {
                assert(store[store.len() - 1] == m[k]);
            }
        }
        assert forall|i: int|
            0 <= i < store.len() && is_prefix(
                query,
                (#[trigger] store[i]).title,
            ) implies m.contains(store[i]) by {
            if i < init.len() {
                assert(init[i] == store[i]);
                let w = choose|w: int| 0 <= w < mi.len() && mi[w] == store[i];
                assert(m[w] == store[i]);
            } else {
                assert(m[m.len() - 1] == store[i]);
            }
        }
    }
}

/// When a prefix query selects anything, the first row it selects is the
/// first row of the store whose title begins with the query.
pub proof fn first_match_is_first_row(store: Seq<CardRecordView>, query: Seq<char>)
    requires
        matching(store, query).len() > 0,
    ensures
        exists|i: int|
            {
                &&& 0 <= i < store.len()
                &&& #[trigger] store[i] == matching(store, query)[0]
                &&& is_prefix(query, store[i].title)
                &&& forall|j: int| 0 <= j < i ==> !is_prefix(query, store[j].title)
            },
    decreases store.len(),
{
    let init = store.drop_last();
    let mi = matching(init, query);
    assert(forall|j: int| 0 <= j < init.len() ==> init[j] == store[j]);
    if mi.len() > 0 {
        first_match_is_first_row(init, query);
        let i = choose|i: int|
            {
                &&& 0 <= i < init.len()
                &&& #[trigger] init[i] == mi[0]
                &&& is_prefix(query, init[i].title)
                &&& forall|j: int| 0 <= j < i ==> !is_prefix(query, init[j].title)
            };
        assert(store[i] == matching(store, query)[0]);
    } else {
        matching_is_ordered_selection(init, query);
        let last = store.len() - 1;
        assert(store[last] == matching(store, query)[0]);
        assert forall|j: int| 0 <= j < last implies !is_prefix(query, store[j].title) by {
            if is_prefix(query, init[j].title) {
                assert(mi.contains(init[j]));
            }
        }
    }
}

/// An in-memory store: rows in insertion order.
#[derive(Clone, Debug)]
pub struct CardStore {
    pub rows: Vec<CardRecord>,
}

impl View for CardStore {
    type V = Seq<CardRecordView>;

    open spec fn view(&self) -> Seq<CardRecordView> {
        records_view(self.rows@)
    }
}

impl CardStore {
    /// A store without rows.
    pub fn new() -> (s: Self)
        ensures
            s@ == Seq::<CardRecordView>::empty(),
    {
        let s = CardStore { rows: Vec::new() };
        s
    }

    /// Adds a row after all rows already stored.
    pub fn insert(&mut self, record: CardRecord)
        ensures
            final(self)@ == old(self)@.push(record@),
    {
        self.rows.push(record);
    }

    /// The first `limit` rows whose title begins with `query`, in insertion order.
    pub fn find_by_prefix(&self, query: &str, limit: usize) -> (found: Vec<CardRecord>)
        ensures
            records_view(found@) == find_by_prefix(self@, query@, limit as nat),
    {
        let mut found: Vec<CardRecord> = Vec::new();
        let mut i: usize = 0;
        while i < self.rows.len()
            invariant
                i <= self.rows.len(),
                found.len() <= limit,
                records_view(found@) == find_by_prefix(self@.take(i as int), query@, limit as nat),
            decreases self.rows.len() - i,
        {
            let ghost before = self@.take(i as int);
            let ghost after = self@.take(i as int + 1);
            assert(after.drop_last() =~= before);
            let row = &self.rows[i];
            if starts_with(row.title.as_str(), query) {
                if found.len() < limit {
                    let ghost old_found = records_view(found@);
                    found.push(row.clone());
                    assert(records_view(found@) =~= old_found.push(row@));
                }
            }
            i += 1;
        }
        assert(self@.take(i as int) =~= self@);
        found
    }

    /// The first row titled `title`, if there is one.
    pub fn find_exact(&self, title: &str) -> (found: Option<CardRecord>)
        ensures
            found is Some <==> find_exact(self@, title@) is Some,
            found matches Some(r) ==> find_exact(self@, title@) == Some(r@),
    {
        let mut i: usize = 0;
        assert(self@.skip(0) =~= self@);
        while i < self.rows.len()
            invariant
                i <= self.rows.len(),
                find_exact(self@, title@) == find_exact(self@.skip(i as int), title@),
            decreases self.rows.len() - i,
        {
            let row = &self.rows[i];
            if same_text(row.title.as_str(), title) {
                return Some(row.clone());
            }
            assert(self@.skip(i as int).drop_first() =~= self@.skip(i as int + 1));
            i += 1;
        }
        None
    }
}

} // verus!
