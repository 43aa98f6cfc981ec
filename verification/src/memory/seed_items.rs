//! What a run of seeding owes for each item: a row that was in the store is
//! found again, and a row that was not is added behind the rows that were.

use vstd::prelude::*;
use crate::memory::seed_rows::{count, extends, grown_in, key_of, lemma_first_key, lemma_first_key_tail, next_key, record, unkeyed};
use crate::models::Record;
use crate::schema::{Row, Table};
use crate::seeder::{describes, item_name, item_parent, item_table, remember, Keys, ITEMS};
use crate::store::Store;
use crate::values::Timestamp;

verus! {

/// The key of the row that the lookup of an item finds in the store, given
/// the keys of the rows that it refers to.
pub open spec fn found(store: &Store, item: u8, keys: Keys) -> Option<int> {
    store.first_key(item_table(item), item_name(item), item_parent(item, keys))
}

/// 1 where the store has no row for the item, 0 where it has one.
pub open spec fn lacks(store: &Store, item: u8, keys: Keys, upto: int) -> int {
    if item < upto && found(store, item, keys) is None {
        1
    } else {
        0
    }
}

/// Of the items below `upto` that belong to `table`, the number for which the
/// store has no row.
pub open spec fn lacking(store: &Store, table: Table, keys: Keys, upto: int) -> int {
    match table {
        Table::UserRole => lacks(store, 0, keys, upto) + lacks(store, 1, keys, upto) + lacks(
            store,
            2,
            keys,
            upto,
        ),
        Table::User => lacks(store, 3, keys, upto) + lacks(store, 4, keys, upto) + lacks(
            store,
            5,
            keys,
            upto,
        ),
        Table::Seed => lacks(store, 6, keys, upto),
        Table::Land => lacks(store, 7, keys, upto),
        Table::Sensor => lacks(store, 8, keys, upto),
        Table::SensorHistory => lacks(store, 9, keys, upto),
        Table::Plant => lacks(store, 10, keys, upto),
        Table::Valve => lacks(store, 11, keys, upto),
        Table::Pump => lacks(store, 12, keys, upto),
        Table::Automation => lacks(store, 13, keys, upto),
        Table::AutomationHistory => lacks(store, 14, keys, upto),
        Table::Recommendation => lacks(store, 15, keys, upto) + lacks(store, 16, keys, upto)
            + lacks(store, 17, keys, upto),
        Table::PestControl => lacks(store, 18, keys, upto),
        Table::Notification => lacks(store, 19, keys, upto),
    }
}

/// The key under which the keys remember the row of an item, for an item whose
/// row later items refer to.
pub open spec fn slot(keys: Keys, item: u8) -> Option<i32> {
    if item == 0 {
        Some(keys.admin_role)
    } else if item == 1 {
        Some(keys.farmer_role)
    } else if item == 2 {
        Some(keys.consultant_role)
    } else if item == 4 {
        Some(keys.farmer)
    } else if item == 6 {
        Some(keys.seed)
    } else if item == 7 {
        Some(keys.land)
    } else if item == 8 {
        Some(keys.sensor)
    } else if item == 11 {
        Some(keys.valve)
    } else if item == 12 {
        Some(keys.pump)
    } else if item == 13 {
        Some(keys.automation)
    } else {
        None
    }
}

/// The row is the row of the item as seeding makes it, at some instant.
pub open spec fn made(row: Record, item: u8, keys: Keys, hash: Seq<char>) -> bool {
    exists|at: Timestamp| #[trigger] describes(unkeyed(row), item, keys, hash, at)
}

/// Whether the store `after` holds the row of an item as seeding owes it to
/// the store `before`.
///
/// - Where `before` had a row for the item, that row is the one that the
///   item's lookup finds in `after`.
/// - Where it had none, the row of the item as seeding makes it stands in
///   `after` behind the rows of `before` and the rows of the earlier items of
///   its table that were added, under the key that follows theirs, and it is
///   the row that the item's lookup finds.
pub open spec fn placed(before: &Store, after: &Store, item: u8, keys: Keys, hash: Seq<char>) -> bool {
    let table = item_table(item);
    match found(before, item, keys) {
        Some(id) => found(after, item, keys) == Some(id),
        None => {
            let added = lacking(before, table, keys, item as int);
            let i = count(before, table) + added;
            &&& i < count(after, table)
            &&& key_of(record(after, table, i)) == next_key(before, table) + added
            &&& found(after, item, keys) == Some(next_key(before, table) + added)
            &&& made(record(after, table, i), item, keys, hash)
        },
    }
}

/// The keys remember, for each of the first `upto` items that later items
/// refer to, the key of the row that its lookup finds.
pub open spec fn remembered(store: &Store, keys: Keys, upto: int) -> bool {
    forall|j: u8|
        j < upto && (#[trigger] slot(keys, j)) is Some ==> found(store, j, keys) == Some(
            slot(keys, j)->0 as int,
        )
}

/// The rows of the first `upto` items are placed, and each table holds the rows
/// of `before` and one more for each of these items that `before` had no row
/// for.
pub open spec fn placed_upto(before: &Store, after: &Store, keys: Keys, hash: Seq<char>, upto: int) -> bool {
    &&& forall|j: u8| j < upto ==> #[trigger] placed(before, after, j, keys, hash)
    &&& forall|t: Table|
        #[trigger] count(after, t) == count(before, t) + lacking(before, t, keys, upto)
}

/// Two items of one table go by different names.
pub proof fn lemma_names_differ(j: u8, k: u8)
    requires
        j < ITEMS,
        k < ITEMS,
        j != k,
        item_table(j) == item_table(k),
    ensures
        item_name(j) != item_name(k),
{
    reveal_strlit("admin");
    reveal_strlit("farmer");
    reveal_strlit("consultant");
    reveal_strlit("miracleandsleeper");
    reveal_strlit("november rain");
    reveal_strlit("imagine");
    reveal_strlit("Always with me");
    reveal_strlit("One summer day");
    reveal_strlit("Is there still anything");
    assert("admin"@.len() != "farmer"@.len());
    assert("admin"@.len() != "consultant"@.len());
    assert("farmer"@.len() != "consultant"@.len());
    assert("miracleandsleeper"@.len() != "november rain"@.len());
    assert("miracleandsleeper"@.len() != "imagine"@.len());
    assert("november rain"@.len() != "imagine"@.len());
    assert("Always with me"@[0] != "One summer day"@[0]);
    assert("Always with me"@.len() != "Is there still anything"@.len());
    assert("One summer day"@.len() != "Is there still anything"@.len());
}

/// What an item reads of the keys is what earlier items have set: remembering
/// the key of an item changes nothing for the items up to it.
pub proof fn lemma_unread(j: u8, k: u8, keys: Keys, id: i32)
    requires
        j <= k,
        k < ITEMS,
    ensures
        item_parent(j, remember(keys, k, id)) == item_parent(j, keys),
        forall|r: Record, h: Seq<char>, at: Timestamp|
            #[trigger] describes(r, j, remember(keys, k, id), h, at) == describes(r, j, keys, h, at),
        forall|i: u8| i < j ==> #[trigger] slot(remember(keys, k, id), i) == slot(keys, i),
{
}

/// The row of an item does not read the hash before the users begin.
pub proof fn lemma_hash_unread(j: u8, keys: Keys, h: Seq<char>, g: Seq<char>)
    requires
        j < 3,
    ensures
        forall|r: Record, at: Timestamp|
            #[trigger] describes(r, j, keys, h, at) == describes(r, j, keys, g, at),
{
}

/// Remembering the key of an item leaves what is counted as lacking among the
/// items up to it as it was.
pub proof fn lemma_lacking_unread(store: &Store, table: Table, keys: Keys, k: u8, id: i32, upto: int)
    requires
        k < ITEMS,
        upto <= k + 1,
    ensures
        lacking(store, table, remember(keys, k, id), upto) == lacking(store, table, keys, upto),
{
    assert forall|i: u8| i < upto implies found(store, i, remember(keys, k, id)) == found(
        store,
        i,
        keys,
    ) by {
        lemma_unread(i, k, keys, id);
    }
}

/// A row that is placed stays placed when the key of a later item, or of the
/// item itself, is remembered, and when the hash changes before the users
/// begin.
pub proof fn lemma_reframe(
    before: &Store,
    after: &Store,
    j: u8,
    k: u8,
    keys: Keys,
    id: i32,
    h: Seq<char>,
    g: Seq<char>,
)
    requires
        j <= k,
        k < ITEMS,
        j >= 3 ==> h == g,
        placed(before, after, j, keys, h),
    ensures
        placed(before, after, j, remember(keys, k, id), g),
{
    let later = remember(keys, k, id);
    lemma_unread(j, k, keys, id);
    lemma_lacking_unread(before, item_table(j), keys, k, id, j as int);
    if j < 3 {
        lemma_hash_unread(j, keys, h, g);
    }
    if found(before, j, keys) is None {
        let table = item_table(j);
        let i = count(before, table) + lacking(before, table, keys, j as int);
        let row = record(after, table, i);
        let at = choose|at: Timestamp| #[trigger] describes(unkeyed(row), j, keys, h, at);
        assert(describes(unkeyed(row), j, later, g, at));
    }
}

/// A row that is placed stays placed when rows are added behind it.
pub proof fn lemma_regrow(
    before: &Store,
    mid: &Store,
    after: &Store,
    j: u8,
    keys: Keys,
    h: Seq<char>,
)
    requires
        placed(before, mid, j, keys, h),
        grown_in(after, mid, item_table(j)),
        found(after, j, keys) == found(mid, j, keys),
    ensures
        placed(before, after, j, keys, h),
{
    if found(before, j, keys) is None {
        let table = item_table(j);
        let i = count(before, table) + lacking(before, table, keys, j as int);
        assert(record(after, table, i) == record(mid, table, i));
    }
}

/// A row that seeding made for one item does not meet the lookup of another
/// item of the same table.
pub proof fn lemma_made_differs(row: Record, j: u8, k: u8, keys: Keys, h: Seq<char>)
    requires
        j < ITEMS,
        k < ITEMS,
        j != k,
        item_table(j) == item_table(k),
        made(row, j, keys, h),
    ensures
        !row.fits(item_name(k), item_parent(k, keys)),
{
    lemma_names_differ(j, k);
    let at = choose|at: Timestamp| #[trigger] describes(unkeyed(row), j, keys, h, at);
    assert(describes(unkeyed(row), j, keys, h, at));
}

/// A lookup that finds a row in the course of seeding finds a row that was
/// there before seeding began: the rows that seeding has added for earlier
/// items go by other names.
pub proof fn lemma_found_before(
    before: &Store,
    after: &Store,
    k: u8,
    keys: Keys,
    h: Seq<char>,
)
    requires
        k < ITEMS,
        extends(after, before),
        placed_upto(before, after, keys, h, k as int),
        found(after, k, keys) is Some,
    ensures
        found(before, k, keys) is Some,
{
    let table = item_table(k);
    if found(before, k, keys) is None {
        assert(grown_in(after, before, table));
        assert(count(after, table) == count(before, table) + lacking(before, table, keys, k as int));
        assert forall|i: int| count(before, table) <= i < count(after, table) implies !(
        #[trigger] record(after, table, i)).fits(item_name(k), item_parent(k, keys)) by {
            let first: u8 = if table == Table::UserRole {
                0
            } else if table == Table::User {
                3
            } else {
                15
            };
            let second: u8 = (first + 1) as u8;
            let m = i - count(before, table);
            if found(before, first, keys) is None && m == 0 {
                assert(placed(before, after, first, keys, h));
                lemma_made_differs(record(after, table, i), first, k, keys, h);
            } else {
                assert(placed(before, after, second, keys, h));
                lemma_made_differs(record(after, table, i), second, k, keys, h);
            }
        }
        lemma_first_key_tail(after, before, table, item_name(k), item_parent(k, keys));
    }
}

} // verus!
