//! One table's rows, in the order of insertion, with the counter that hands
//! out their keys.

use vstd::prelude::*;
use crate::handlers::Parent;
use crate::schema::{Row, Stamped, Table};

verus! {

/// The keys of the rows grow with their position.
pub open spec fn ascending<T: Row>(s: Seq<T>) -> bool {
    forall|i: int, j: int| 0 <= i < j < s.len() ==> s[i].key() < s[j].key()
}

/// Some row has the key `key`.
pub open spec fn has_key<T: Row>(s: Seq<T>, key: int) -> bool {
    exists|i: int| 0 <= i < s.len() && #[trigger] s[i].key() == key
}

/// The row with the key `key`, if there is one.
pub open spec fn lookup<T: Row>(s: Seq<T>, key: int) -> Option<T> {
    if has_key(s, key) {
        Some(s[choose|i: int| 0 <= i < s.len() && #[trigger] s[i].key() == key])
    } else {
        None
    }
}

/// The row refers to the parent, where one is given.
pub open spec fn under<T: Row>(row: T, parent: Option<Parent>) -> bool {
    match parent {
        Some(p) => row.parent(p.table) == Some(p.key as int),
        None => true,
    }
}

/// The row goes by the name, where one is given.
pub open spec fn named<T: Row>(row: T, name: Option<Seq<char>>) -> bool {
    match name {
        Some(n) => row.label() == Some(n),
        None => true,
    }
}

/// The rows that refer to the parent, in their order; all rows where no
/// parent is given.
pub open spec fn selected<T: Row>(s: Seq<T>, parent: Option<Parent>) -> Seq<T> {
    s.filter(|r: T| under(r, parent))
}

/// The rows but the one with the key `key`, in their order.
pub open spec fn removed<T: Row>(s: Seq<T>, key: Option<int>) -> Seq<T> {
    s.filter(|r: T| Some(r.key()) != key)
}

/// The key of the first row that goes by the name and refers to the parent,
/// if there is such a row.
pub open spec fn first_fit<T: Row>(s: Seq<T>, name: Option<Seq<char>>, parent: Option<Parent>) -> Option<
    int,
>
    decreases s.len(),
{
    if s.len() == 0 {
        None
    } else {
        let before = first_fit(s.drop_last(), name, parent);
        if before is Some {
            before
        } else if named(s.last(), name) && under(s.last(), parent) {
            Some(s.last().key())
        } else {
            None
        }
    }
}

/// No row lies after `row` in time.
pub open spec fn latest<T: Stamped>(s: Seq<T>, row: T) -> bool {
    forall|i: int| 0 <= i < s.len() ==> !row.stamp().before(#[trigger] s[i].stamp())
}

/// Filtering a sequence with one more element at its end.
pub proof fn lemma_filter_push<T>(s: Seq<T>, x: T, p: spec_fn(T) -> bool)
    ensures
        s.push(x).filter(p) == if p(x) {
            s.filter(p).push(x)
        } else {
            s.filter(p)
        },
{
    reveal(Seq::filter);
    assert(s.push(x).drop_last() == s);
}

/// A filter keeps the keys growing.
pub proof fn lemma_filter_ascending<T: Row>(s: Seq<T>, p: spec_fn(T) -> bool)
    requires
        ascending(s),
    ensures
        ascending(s.filter(p)),
    decreases s.len(),
{
    reveal(Seq::filter);
    if s.len() > 0 {
        let init = s.drop_last();
        let g = init.filter(p);
        assert(ascending(init)) by {
            assert forall|i: int, j: int| 0 <= i < j < init.len() implies init[i].key()
                < init[j].key() by {
                assert(init[i] == s[i] && init[j] == s[j]);
            }
        }
        lemma_filter_ascending(init, p);
        if p(s.last()) {
            let f = g.push(s.last());
            assert forall|i: int, j: int| 0 <= i < j < f.len() implies f[i].key() < f[j].key() by {
                if j < g.len() {
                    assert(f[i] == g[i] && f[j] == g[j]);
                } else {
                    assert(g.contains(g[i]));
                    init.lemma_filter_contains_rev(p, g[i]);
                    let k = choose|k: int| 0 <= k < init.len() && init[k] == g[i];
                    assert(s[k] == g[i]);
                    assert(s[k].key() < s[s.len() - 1].key());
                }
            }
        }
    }
}

/// A filter keeps exactly the rows that pass the test: a key is found after
/// filtering if and only if it is the key of a row that passes.
pub proof fn lemma_filter_has_key<T: Row>(s: Seq<T>, p: spec_fn(T) -> bool, k: int)
    ensures
        has_key(s.filter(p), k) <==> exists|j: int|
            0 <= j < s.len() && #[trigger] s[j].key() == k && p(s[j]),
{
    let f = s.filter(p);
    if has_key(f, k) {
        let i = choose|i: int| 0 <= i < f.len() && #[trigger] f[i].key() == k;
        s.lemma_filter_pred(p, i);
        assert(f.contains(f[i]));
        s.lemma_filter_contains_rev(p, f[i]);
        let j = choose|j: int| 0 <= j < s.len() && s[j] == f[i];
        assert(s[j].key() == k && p(s[j]));
    }
    if exists|j: int| 0 <= j < s.len() && #[trigger] s[j].key() == k && p(s[j]) {
        let j = choose|j: int| 0 <= j < s.len() && #[trigger] s[j].key() == k && p(s[j]);
        s.lemma_filter_contains(p, j);
        let i = choose|i: int| 0 <= i < f.len() && f[i] == s[j];
        assert(f[i].key() == k);
    }
}

/// Each row that a filter keeps is a row of the sequence that passes the test.
pub proof fn lemma_filter_row<T: Row>(s: Seq<T>, p: spec_fn(T) -> bool, i: int)
    requires
        0 <= i < s.filter(p).len(),
    ensures
        p(s.filter(p)[i]),
        s.contains(s.filter(p)[i]),
{
    let f = s.filter(p);
    s.lemma_filter_pred(p, i);
    assert(f.contains(f[i]));
    s.lemma_filter_contains_rev(p, f[i]);
}

/// Selecting without a parent selects every row.
pub proof fn lemma_selected_all<T: Row>(s: Seq<T>)
    ensures
        selected(s, None) == s,
    decreases s.len(),
{
    reveal(Seq::filter);
    if s.len() > 0 {
        lemma_selected_all(s.drop_last());
        assert(s.drop_last().push(s.last()) == s);
    }
}

/// Where keys grow, a key names at most one row: the row at any position is
/// the one that its key looks up.
pub proof fn lemma_lookup_at<T: Row>(s: Seq<T>, i: int)
    requires
        ascending(s),
        0 <= i < s.len(),
    ensures
        has_key(s, s[i].key()),
        lookup(s, s[i].key()) == Some(s[i]),
{
    let k = s[i].key();
    assert(has_key(s, k));
    let j = choose|j: int| 0 <= j < s.len() && #[trigger] s[j].key() == k;
    if j < i {
        assert(s[j].key() < s[i].key());
    }
    if i < j {
        assert(s[i].key() < s[j].key());
    }
}

/// The first fit after a row has been appended: the first fit before, where
/// there was one, and otherwise the new row, where it fits.
pub proof fn lemma_first_fit_push<T: Row>(
    s: Seq<T>,
    row: T,
    name: Option<Seq<char>>,
    parent: Option<Parent>,
)
    ensures
        first_fit(s.push(row), name, parent) == if first_fit(s, name, parent) is Some {
            first_fit(s, name, parent)
        } else if named(row, name) && under(row, parent) {
            Some(row.key())
        } else {
            None
        },
{
    assert(s.push(row).drop_last() == s);
    assert(s.push(row).last() == row);
}

/// Once a prefix holds a row that fits, rows that follow do not change which
/// row is the first to fit.
pub proof fn lemma_first_fit_stable<T: Row>(
    s: Seq<T>,
    k: int,
    name: Option<Seq<char>>,
    parent: Option<Parent>,
)
    requires
        0 <= k <= s.len(),
        first_fit(s.take(k), name, parent) is Some,
    ensures
        first_fit(s, name, parent) == first_fit(s.take(k), name, parent),
    decreases s.len() - k,
{
    if k < s.len() {
        assert(s.take(k + 1).drop_last() == s.take(k));
        lemma_first_fit_stable(s, k + 1, name, parent);
    } else {
        assert(s.take(k) == s);
    }
}

/// What the first fit is: no row fits where there is none, and otherwise it is
/// the key of a row that fits and that no fitting row precedes.
pub proof fn lemma_first_fit<T: Row>(s: Seq<T>, name: Option<Seq<char>>, parent: Option<Parent>)
    ensures
        match first_fit(s, name, parent) {
            None => forall|i: int|
                0 <= i < s.len() ==> !(named(#[trigger] s[i], name) && under(s[i], parent)),
            Some(key) => exists|i: int|
                0 <= i < s.len() && #[trigger] s[i].key() == key && named(s[i], name) && under(
                    s[i],
                    parent,
                ) && forall|j: int|
                    0 <= j < i ==> !(named(#[trigger] s[j], name) && under(s[j], parent)),
        },
    decreases s.len(),
{
    if s.len() > 0 {
        let init = s.drop_last();
        lemma_first_fit(init, name, parent);
        match first_fit(init, name, parent) {
            Some(key) => {
                let i = choose|i: int|
                    0 <= i < init.len() && #[trigger] init[i].key() == key && named(init[i], name)
                        && under(init[i], parent) && forall|j: int|
                        0 <= j < i ==> !(named(#[trigger] init[j], name) && under(
                            init[j],
                            parent,
                        ));
                assert(s[i] == init[i]);
                assert forall|j: int| 0 <= j < i implies !(named(#[trigger] s[j], name) && under(
                    s[j],
                    parent,
                )) by {
                    assert(s[j] == init[j]);
                }
            },
            None => {
                assert forall|j: int| 0 <= j < s.len() - 1 implies !(named(
                    #[trigger] s[j],
                    name,
                ) && under(s[j], parent)) by {
                    assert(s[j] == init[j]);
                }
                if named(s.last(), name) && under(s.last(), parent) {
                    assert(s[s.len() - 1].key() == s.last().key());
                }
            },
        }
    }
}

/// One table's rows and the next key to hand out.
#[derive(Debug, PartialEq, Eq)]
pub struct Rows<T> {
    pub rows: Vec<T>,
    pub next: i32,
}

impl<T: Row> Rows<T> {
    /// Keys start at 1, grow with the order of insertion, and lie below the next
    /// key to hand out.
    pub open spec fn wf(&self) -> bool {
        &&& 1 <= self.next
        &&& ascending(self.rows@)
        &&& forall|i: int| 0 <= i < self.rows@.len() ==> 1 <= #[trigger] self.rows@[i].key() < self.next
    }

    /// An empty table, whose first key will be 1.
    pub fn new() -> (t: Rows<T>)
        ensures
            t.wf(),
            t.rows@.len() == 0,
            t.next == 1,
    {
        Rows { rows: Vec::new(), next: 1 }
    }

    /// The position of the row with the key `id`, if there is one.
    pub fn position(&self, id: i32) -> (at: Option<usize>)
        ensures
            match at {
                Some(i) => i < self.rows@.len() && self.rows@[i as int].key() == id,
                None => !has_key(self.rows@, id as int),
            },
    {
        let mut i: usize = 0;
        while i < self.rows.len()
            invariant
                i <= self.rows@.len(),
                forall|j: int| 0 <= j < i ==> self.rows@[j].key() != id,
            decreases self.rows@.len() - i,
        {
            if self.rows[i].id() == id {
                return Some(i);
            }
            i = i + 1;
        }
        None
    }

    /// Whether a row has the key `id`.
    pub fn contains(&self, id: i32) -> (b: bool)
        ensures
            b == has_key(self.rows@, id as int),
    {
        self.position(id).is_some()
    }

    /// A copy of the row with the key `id`, if there is one.
    pub fn get(&self, id: i32) -> (row: Option<T>)
        requires
            self.wf(),
        ensures
            row == lookup(self.rows@, id as int),
    {
        match self.position(id) {
            Some(i) => {
                proof {
                    lemma_lookup_at(self.rows@, i as int);
                }
                Some(self.rows[i].duplicate())
            },
            None => None,
        }
    }

    /// Appends a row under the next key and returns a copy of it as stored;
    /// `None`, and nothing changes, where the keys are used up.
    pub fn append(&mut self, draft: T) -> (stored: Option<T>)
        requires
            old(self).wf(),
        ensures
            final(self).wf(),
            if old(self).next < i32::MAX {
                &&& stored == Some(draft.keyed(old(self).next as int))
                &&& final(self).rows@ == old(self).rows@.push(draft.keyed(old(self).next as int))
                &&& final(self).next == old(self).next + 1
                &&& lookup(final(self).rows@, old(self).next as int) == stored
            } else {
                &&& stored is None
                &&& final(self).rows@ == old(self).rows@
                &&& final(self).next == old(self).next
            },
    {
        if self.next == i32::MAX {
            return None;
        }
        let key = self.next;
        proof {
            draft.lemma_keyed(key as int);
        }
        let row = draft.with_id(key);
        let copy = row.duplicate();
        self.rows.push(row);
        self.next = key + 1;
        proof {
            let s = self.rows@;
            assert forall|i: int, j: int| 0 <= i < j < s.len() implies s[i].key() < s[j].key() by {
                if j == s.len() - 1 {
                    assert(s[i] == old(self).rows@[i]);
                } else {
                    assert(s[i] == old(self).rows@[i] && s[j] == old(self).rows@[j]);
                }
            }
            assert forall|i: int| 0 <= i < s.len() implies 1 <= #[trigger] s[i].key()
                < self.next by {
                if i < s.len() - 1 {
                    assert(s[i] == old(self).rows@[i]);
                }
            }
            lemma_lookup_at(s, s.len() - 1);
        }
        Some(copy)
    }

    /// Writes `row` over the stored row of the same key, in its place, and
    /// returns a copy of it; `None`, and nothing changes, where no row has
    /// that key.
    pub fn replace(&mut self, row: T) -> (stored: Option<T>)
        requires
            old(self).wf(),
        ensures
            final(self).wf(),
            final(self).next == old(self).next,
            final(self).rows@.len() == old(self).rows@.len(),
            match stored {
                Some(r) => {
                    &&& r == row
                    &&& has_key(old(self).rows@, row.key())
                    &&& lookup(final(self).rows@, row.key()) == Some(row)
                    &&& forall|i: int|
                        0 <= i < old(self).rows@.len() ==> #[trigger] final(self).rows@[i]
                            == if old(self).rows@[i].key() == row.key() {
                            row
                        } else {
                            old(self).rows@[i]
                        }
                },
                None => !has_key(old(self).rows@, row.key()) && final(self).rows@ == old(
                    self,
                ).rows@,
            },
    {
        match self.position(row.id()) {
            Some(i) => {
                let copy = row.duplicate();
                proof {
                    lemma_lookup_at(self.rows@, i as int);
                }
                self.rows.set(i, row);
                proof {
                    let s = self.rows@;
                    let o = old(self).rows@;
                    assert forall|a: int, b: int| 0 <= a < b < s.len() implies s[a].key()
                        < s[b].key() by {
                        assert(s[a].key() == o[a].key() && s[b].key() == o[b].key());
                    }
                    assert forall|a: int| 0 <= a < s.len() implies 1 <= #[trigger] s[a].key()
                        < self.next by {
                        assert(s[a].key() == o[a].key());
                    }
                    lemma_lookup_at(s, i as int);
                    assert forall|a: int| 0 <= a < o.len() implies #[trigger] s[a] == if o[a].key()
                        == row.key() {
                        row
                    } else {
                        o[a]
                    } by {
                        if a != i {
                            if a < i {
                                assert(o[a].key() < o[i as int].key());
                            } else {
                                assert(o[i as int].key() < o[a].key());
                            }
                        }
                    }
                }
                Some(copy)
            },
            None => None,
        }
    }

    /// Copies of the rows that refer to the parent, in the order of insertion;
    /// of all rows where no parent is given.
    pub fn select(&self, parent: Option<Parent>) -> (found: Vec<T>)
        ensures
            found@ == selected(self.rows@, parent),
    {
        let mut found: Vec<T> = Vec::new();
        let mut i: usize = 0;
        proof {
            reveal(Seq::filter);
            assert(self.rows@.take(0).len() == 0);
        }
        while i < self.rows.len()
            invariant
                i <= self.rows@.len(),
                found@ == selected(self.rows@.take(i as int), parent),
            decreases self.rows@.len() - i,
        {
            let row = &self.rows[i];
            let keep = match parent {
                Some(p) => match row.parent_id(p.table) {
                    Some(k) => k == p.key,
                    None => false,
                },
                None => true,
            };
            proof {
                assert(self.rows@.take(i + 1) == self.rows@.take(i as int).push(self.rows@[i as int]));
                lemma_filter_push(
                    self.rows@.take(i as int),
                    self.rows@[i as int],
                    |r: T| under(r, parent),
                );
            }
            if keep {
                found.push(row.duplicate());
            }
            i = i + 1;
        }
        proof {
            assert(self.rows@.take(self.rows@.len() as int) == self.rows@);
        }
        found
    }

    /// The key of the first row, in the order of insertion, that goes by the
    /// name and refers to the parent, where they are given.
    pub fn first(&self, name: &Option<String>, parent: Option<Parent>) -> (key: Option<i32>)
        ensures
            match key {
                Some(k) => first_fit(self.rows@, text(*name), parent) == Some(k as int),
                None => first_fit(self.rows@, text(*name), parent) is None,
            },
    {
        let mut i: usize = 0;
        proof {
            assert(self.rows@.take(0).len() == 0);
        }
        while i < self.rows.len()
            invariant
                i <= self.rows@.len(),
                first_fit(self.rows@.take(i as int), text(*name), parent) is None,
            decreases self.rows@.len() - i,
        {
            let row = &self.rows[i];
            let by_name = match name {
                Some(n) => row.is_named(n.as_str()),
                None => true,
            };
            let by_parent = match parent {
                Some(p) => match row.parent_id(p.table) {
                    Some(k) => k == p.key,
                    None => false,
                },
                None => true,
            };
            proof {
                assert(self.rows@.take(i + 1).drop_last() == self.rows@.take(i as int));
                assert(self.rows@.take(i + 1).last() == self.rows@[i as int]);
            }
            if by_name && by_parent {
                proof {
                    lemma_first_fit_stable(self.rows@, i + 1, text(*name), parent);
                }
                return Some(row.id());
            }
            i = i + 1;
        }
        proof {
            assert(self.rows@.take(self.rows@.len() as int) == self.rows@);
        }
        None
    }
}

/// The rows whose reference into `table`, where they hold one, names a row of
/// `parents`, in their order.
pub open spec fn anchored<T: Row, P: Row>(s: Seq<T>, table: Table, parents: Seq<P>) -> Seq<T> {
    s.filter(|r: T| r.parent(table) is Some ==> has_key(parents, r.parent(table)->0))
}

/// Every row's reference into `table`, where it holds one, names a row of
/// `parents`.
pub open spec fn all_anchored<T: Row, P: Row>(s: Seq<T>, table: Table, parents: Seq<P>) -> bool {
    forall|i: int|
        0 <= i < s.len() ==> ((#[trigger] s[i]).parent(table) is Some ==> has_key(
            parents,
            s[i].parent(table)->0,
        ))
}

/// No two rows go by the same name.
pub open spec fn unique_labels<T: Row>(s: Seq<T>) -> bool {
    forall|i: int, j: int|
        0 <= i < s.len() && 0 <= j < s.len() && (#[trigger] s[i]).label() == (
        #[trigger] s[j]).label() ==> s[i].key() == s[j].key()
}

/// A row other than the one with the key `except` goes by the name `name`.
pub open spec fn name_taken<T: Row>(s: Seq<T>, name: Seq<char>, except: Option<int>) -> bool {
    exists|i: int|
        0 <= i < s.len() && (#[trigger] s[i]).label() == Some(name) && Some(s[i].key()) != except
}

/// Whether a row has the key `key`.
pub fn key_in<T: Row>(rows: &Vec<T>, key: i32) -> (b: bool)
    ensures
        b == has_key(rows@, key as int),
{
    let mut i: usize = 0;
    while i < rows.len()
        invariant
            i <= rows@.len(),
            forall|j: int| 0 <= j < i ==> rows@[j].key() != key,
        decreases rows@.len() - i,
    {
        if rows[i].id() == key {
            return true;
        }
        i = i + 1;
    }
    false
}

/// Whether a row other than the one with the key `except` goes by the name.
pub fn is_name_taken<T: Row>(rows: &Vec<T>, name: &str, except: Option<i32>) -> (b: bool)
    ensures
        b == name_taken(
            rows@,
            name@,
            match except {
                Some(k) => Some(k as int),
                None => None,
            },
        ),
{
    let mut i: usize = 0;
    while i < rows.len()
        invariant
            i <= rows@.len(),
            forall|j: int|
                0 <= j < i ==> !((#[trigger] rows@[j]).label() == Some(name@) && Some(
                    rows@[j].key(),
                ) != match except {
                    Some(k) => Some(k as int),
                    None => None,
                }),
        decreases rows@.len() - i,
    {
        let other = match except {
            Some(k) => rows[i].id() != k,
            None => true,
        };
        if other && rows[i].is_named(name) {
            return true;
        }
        i = i + 1;
    }
    false
}

/// Copies of the rows but the one with the key `key`, in their order.
pub fn without<T: Row>(rows: &Vec<T>, key: Option<i32>) -> (kept: Vec<T>)
    ensures
        kept@ == removed(
            rows@,
            match key {
                Some(k) => Some(k as int),
                None => None,
            },
        ),
{
    let ghost target: Option<int> = match key {
        Some(k) => Some(k as int),
        None => None,
    };
    let mut kept: Vec<T> = Vec::new();
    let mut i: usize = 0;
    proof {
        reveal(Seq::filter);
        assert(rows@.take(0).len() == 0);
    }
    while i < rows.len()
        invariant
            i <= rows@.len(),
            target == match key {
                Some(k) => Some(k as int),
                None => None,
            },
            kept@ == removed(rows@.take(i as int), target),
        decreases rows@.len() - i,
    {
        let row = &rows[i];
        let keep = match key {
            Some(k) => row.id() != k,
            None => true,
        };
        proof {
            assert(rows@.take(i + 1) == rows@.take(i as int).push(rows@[i as int]));
            lemma_filter_push(rows@.take(i as int), rows@[i as int], |r: T| Some(r.key()) != target);
        }
        if keep {
            kept.push(row.duplicate());
        }
        i = i + 1;
    }
    proof {
        assert(rows@.take(rows@.len() as int) == rows@);
    }
    kept
}

/// The rows whose reference into `table`, where they hold one, names a row of
/// `parents`, in their order.
pub fn keep_anchored<T: Row, P: Row>(rows: Vec<T>, table: Table, parents: &Vec<P>) -> (kept: Vec<T>)
    ensures
        kept@ == anchored(rows@, table, parents@),
{
    let mut kept: Vec<T> = Vec::new();
    let mut i: usize = 0;
    proof {
        reveal(Seq::filter);
        assert(rows@.take(0).len() == 0);
    }
    while i < rows.len()
        invariant
            i <= rows@.len(),
            kept@ == anchored(rows@.take(i as int), table, parents@),
        decreases rows@.len() - i,
    {
        let row = &rows[i];
        let keep = match row.parent_id(table) {
            Some(k) => key_in(parents, k),
            None => true,
        };
        proof {
            assert(rows@.take(i + 1) == rows@.take(i as int).push(rows@[i as int]));
            lemma_filter_push(
                rows@.take(i as int),
                rows@[i as int],
                |r: T| r.parent(table) is Some ==> has_key(parents@, r.parent(table)->0),
            );
        }
        if keep {
            kept.push(row.duplicate());
        }
        i = i + 1;
    }
    proof {
        assert(rows@.take(rows@.len() as int) == rows@);
    }
    kept
}

/// Whether every row's reference into `table`, where it holds one, names a
/// row of `parents`.
pub fn are_anchored<T: Row, P: Row>(rows: &Vec<T>, table: Table, parents: &Vec<P>) -> (b: bool)
    ensures
        b == all_anchored(rows@, table, parents@),
{
    let mut i: usize = 0;
    while i < rows.len()
        invariant
            i <= rows@.len(),
            forall|j: int|
                0 <= j < i ==> ((#[trigger] rows@[j]).parent(table) is Some ==> has_key(
                    parents@,
                    rows@[j].parent(table)->0,
                )),
        decreases rows@.len() - i,
    {
        let ok = match rows[i].parent_id(table) {
            Some(k) => key_in(parents, k),
            None => true,
        };
        if !ok {
            return false;
        }
        i = i + 1;
    }
    true
}

/// A copy of a row that refers to the parent and that no such row lies after
/// in time; `None` where no row refers to the parent.
pub fn newest<T: Stamped>(rows: &Vec<T>, parent: Parent) -> (found: Option<T>)
    ensures
        match found {
            Some(row) => rows@.contains(row) && under(row, Some(parent)) && selected(
                rows@,
                Some(parent),
            ).contains(row) && latest(selected(rows@, Some(parent)), row),
            None => selected(rows@, Some(parent)).len() == 0,
        },
{
    let mut best: Option<usize> = None;
    let mut i: usize = 0;
    proof {
        reveal(Seq::filter);
        assert(rows@.take(0).len() == 0);
    }
    while i < rows.len()
        invariant
            i <= rows@.len(),
            match best {
                Some(b) => b < i && under(rows@[b as int], Some(parent)) && selected(
                    rows@.take(i as int),
                    Some(parent),
                ).contains(rows@[b as int]) && latest(
                    selected(rows@.take(i as int), Some(parent)),
                    rows@[b as int],
                ),
                None => selected(rows@.take(i as int), Some(parent)).len() == 0,
            },
        decreases rows@.len() - i,
    {
        let row = &rows[i];
        let fits = match row.parent_id(parent.table) {
            Some(k) => k == parent.key,
            None => false,
        };
        proof {
            assert(rows@.take(i + 1) == rows@.take(i as int).push(rows@[i as int]));
            lemma_filter_push(
                rows@.take(i as int),
                rows@[i as int],
                |r: T| under(r, Some(parent)),
            );
        }
        if fits {
            let ghost before = selected(rows@.take(i as int), Some(parent));
            let ghost after = selected(rows@.take(i + 1), Some(parent));
            proof {
                assert(after == before.push(rows@[i as int]));
                assert(after[after.len() - 1] == rows@[i as int]);
                if best is Some {
                    let b = best->0;
                    let k = choose|k: int| 0 <= k < before.len() && before[k] == rows@[b as int];
                    assert(after[k] == rows@[b as int]);
                }
            }
            match best {
                Some(b) => {
                    if rows[b].timestamp().is_before(&row.timestamp()) {
                        proof {
                            assert forall|j: int| 0 <= j < after.len() implies !rows@[i as int].stamp().before(
                                #[trigger] after[j].stamp(),
                            ) by {
                                if j < before.len() {
                                    assert(after[j] == before[j]);
                                    assert(!rows@[b as int].stamp().before(before[j].stamp()));
                                }
                            }
                        }
                        best = Some(i);
                    } else {
                        proof {
                            assert forall|j: int| 0 <= j < after.len() implies !rows@[b as int].stamp().before(
                                #[trigger] after[j].stamp(),
                            ) by {
                                if j < before.len() {
                                    assert(after[j] == before[j]);
                                }
                            }
                        }
                    }
                },
                None => {
                    proof {
                        assert(after.len() == 1);
                    }
                    best = Some(i);
                },
            }
        }
        i = i + 1;
    }
    proof {
        assert(rows@.take(rows@.len() as int) == rows@);
    }
    match best {
        Some(b) => Some(rows[b].duplicate()),
        None => None,
    }
}

/// The content of an optional text.
pub open spec fn text(name: Option<String>) -> Option<Seq<char>> {
    match name {
        Some(n) => Some(n@),
        None => None,
    }
}

} // verus!
