//! Seeding, run against the in-memory store, and why seeding again adds no
//! second copy of any item.

use vstd::prelude::*;
use crate::handlers::auth::LoginRequest;
use crate::handlers::Parent;
use crate::memory::auth::authenticates;
use crate::models::Record;
use crate::schema::{Row, Table};
use crate::seeder;
use crate::seeder::{describes, item_name, item_parent, item_table, looks_for, opens, remember, steps, Keys, SeedError, SeedEvent, SeedNext, SeedState, ITEMS};
use crate::store::rows::{lemma_first_fit, lemma_lookup_at, name_taken, text};
use crate::memory::seed_items::{found, lacking, lemma_found_before, lemma_lacking_unread, lemma_reframe, lemma_regrow, lemma_unread, made, placed, placed_upto, remembered, slot};
use crate::memory::seed_rows::{count, extends, grown_in, key_of, lemma_extends_keeps, lemma_extends_trans, lemma_gained_extends, lemma_same_extends, next_key, record, unkeyed};
use crate::password::at_rest;
use crate::store::Store;
use crate::values::Timestamp;

verus! {

/// How many steps an event leaves to the item it belongs to.
pub open spec fn phase(event: SeedEvent) -> int {
    match event {
        SeedEvent::Begin => 3,
        SeedEvent::Found(Ok(None)) => 2,
        SeedEvent::Found(Ok(Some(_))) => 1,
        SeedEvent::Inserted(Ok(_)) => 1,
        _ => 0,
    }
}

/// The keys before any row is known.
pub open spec fn no_keys() -> Keys {
    Keys {
        admin_role: 0,
        farmer_role: 0,
        consultant_role: 0,
        farmer: 0,
        seed: 0,
        land: 0,
        sensor: 0,
        valve: 0,
        pump: 0,
        automation: 0,
    }
}

/// The keys that the lookups of the first `upto` items find, one after the
/// other and each under the rows found before; `None` where one of them finds
/// nothing.
pub open spec fn known(store: &Store, upto: nat) -> Option<Keys>
    decreases upto,
{
    if upto == 0 {
        Some(no_keys())
    } else {
        match known(store, (upto - 1) as nat) {
            None => None,
            Some(keys) => match found(store, (upto - 1) as u8, keys) {
                None => None,
                Some(id) => Some(remember(keys, (upto - 1) as u8, id as i32)),
            },
        }
    }
}

/// The store holds a row for every item of reference data.
pub open spec fn seeded(store: &Store) -> bool {
    known(store, ITEMS as nat) is Some
}

/// Every lookup that found a row in `before` finds the same row in `after`.
pub open spec fn keeps_first(after: &Store, before: &Store) -> bool {
    forall|t: Table, n: Option<Seq<char>>, p: Option<Parent>|
        (#[trigger] before.first_key(t, n, p)) is Some ==> after.first_key(t, n, p)
            == before.first_key(t, n, p)
}

/// How many of the items from `from` on belong to `table`.
pub open spec fn left(table: Table, from: int) -> int {
    let (first, last): (int, int) = match table {
        Table::UserRole => (0, 2),
        Table::User => (3, 5),
        Table::Seed => (6, 6),
        Table::Land => (7, 7),
        Table::Sensor => (8, 8),
        Table::SensorHistory => (9, 9),
        Table::Plant => (10, 10),
        Table::Valve => (11, 11),
        Table::Pump => (12, 12),
        Table::Automation => (13, 13),
        Table::AutomationHistory => (14, 14),
        Table::Recommendation => (15, 17),
        Table::PestControl => (18, 18),
        Table::Notification => (19, 19),
    };
    if from > last {
        0
    } else if from < first {
        last - first + 1
    } else {
        last - from + 1
    }
}

/// Every table has keys left for the items from `from` on.
pub open spec fn spacious(store: &Store, from: int) -> bool {
    forall|t: Table| #[trigger] next_key(store, t) + left(t, from) <= i32::MAX
}

/// Every table has keys left for all the items that belong to it.
pub open spec fn roomy(store: &Store) -> bool {
    spacious(store, 0)
}

/// The item from which on rows may still be inserted, given the event that
/// is pending.
pub open spec fn pending(state: SeedState, event: SeedEvent) -> int {
    match event {
        SeedEvent::Inserted(Ok(_)) => state.item + 1,
        _ => state.item as int,
    }
}

/// The keys known after `upto` items name rows of the store.
pub open spec fn valid(store: &Store, keys: Keys, upto: nat) -> bool {
    &&& upto > 0 ==> store.has(Table::UserRole, keys.admin_role as int)
    &&& upto > 1 ==> store.has(Table::UserRole, keys.farmer_role as int)
    &&& upto > 2 ==> store.has(Table::UserRole, keys.consultant_role as int)
    &&& upto > 4 ==> store.has(Table::User, keys.farmer as int)
    &&& upto > 6 ==> store.has(Table::Seed, keys.seed as int)
    &&& upto > 7 ==> store.has(Table::Land, keys.land as int)
    &&& upto > 8 ==> store.has(Table::Sensor, keys.sensor as int)
    &&& upto > 11 ==> store.has(Table::Valve, keys.valve as int)
    &&& upto > 12 ==> store.has(Table::Pump, keys.pump as int)
    &&& upto > 13 ==> store.has(Table::Automation, keys.automation as int)
}

/// Every reference that the row holds names a row of the store.
pub open spec fn links(store: &Store, record: Record) -> bool {
    match record {
        Record::UserRole(row) => store.linked(row),
        Record::User(row) => store.linked(row),
        Record::Seed(row) => store.linked(row),
        Record::Land(row) => store.linked(row),
        Record::Sensor(row) => store.linked(row),
        Record::SensorHistory(row) => store.linked(row),
        Record::Plant(row) => store.linked(row),
        Record::Valve(row) => store.linked(row),
        Record::Pump(row) => store.linked(row),
        Record::Automation(row) => store.linked(row),
        Record::AutomationHistory(row) => store.linked(row),
        Record::Recommendation(row) => store.linked(row),
        Record::PestControl(row) => store.linked(row),
        Record::Notification(row) => store.linked(row),
    }
}

/// A key that a lookup finds is the key of a row of the table.
pub proof fn lemma_found_exists(store: &Store, table: Table, name: Option<Seq<char>>, parent: Option<Parent>)
    requires
        store.first_key(table, name, parent) is Some,
    ensures
        store.has(table, store.first_key(table, name, parent)->0),
{
    match table {
        Table::UserRole => lemma_first_fit(store.user_roles.rows@, name, parent),
        Table::User => lemma_first_fit(store.users.rows@, name, parent),
        Table::Seed => lemma_first_fit(store.seeds.rows@, name, parent),
        Table::Land => lemma_first_fit(store.lands.rows@, name, parent),
        Table::Sensor => lemma_first_fit(store.sensors.rows@, name, parent),
        Table::SensorHistory => lemma_first_fit(store.sensor_histories.rows@, name, parent),
        Table::Plant => lemma_first_fit(store.plants.rows@, name, parent),
        Table::Valve => lemma_first_fit(store.valves.rows@, name, parent),
        Table::Pump => lemma_first_fit(store.pumps.rows@, name, parent),
        Table::Automation => lemma_first_fit(store.automations.rows@, name, parent),
        Table::AutomationHistory => lemma_first_fit(store.automation_histories.rows@, name, parent),
        Table::Recommendation => lemma_first_fit(store.recommendations.rows@, name, parent),
        Table::PestControl => lemma_first_fit(store.pest_controls.rows@, name, parent),
        Table::Notification => lemma_first_fit(store.notifications.rows@, name, parent),
    }
}

/// The key of a row of a consistent store lies between 1 and the table's
/// next key.
pub proof fn lemma_key_in_range(store: &Store, table: Table, id: int)
    requires
        store.wf(),
        store.has(table, id),
    ensures
        1 <= id < next_key(store, table),
{
    match table {
        Table::UserRole => {
            let i = choose|i: int| 0 <= i < store.user_roles.rows@.len() && #[trigger] store.user_roles.rows@[i].key() == id;
        },
        Table::User => {
            let i = choose|i: int| 0 <= i < store.users.rows@.len() && #[trigger] store.users.rows@[i].key() == id;
        },
        Table::Seed => {
            let i = choose|i: int| 0 <= i < store.seeds.rows@.len() && #[trigger] store.seeds.rows@[i].key() == id;
        },
        Table::Land => {
            let i = choose|i: int| 0 <= i < store.lands.rows@.len() && #[trigger] store.lands.rows@[i].key() == id;
        },
        Table::Sensor => {
            let i = choose|i: int| 0 <= i < store.sensors.rows@.len() && #[trigger] store.sensors.rows@[i].key() == id;
        },
        Table::SensorHistory => {
            let i = choose|i: int| 0 <= i < store.sensor_histories.rows@.len() && #[trigger] store.sensor_histories.rows@[i].key() == id;
        },
        Table::Plant => {
            let i = choose|i: int| 0 <= i < store.plants.rows@.len() && #[trigger] store.plants.rows@[i].key() == id;
        },
        Table::Valve => {
            let i = choose|i: int| 0 <= i < store.valves.rows@.len() && #[trigger] store.valves.rows@[i].key() == id;
        },
        Table::Pump => {
            let i = choose|i: int| 0 <= i < store.pumps.rows@.len() && #[trigger] store.pumps.rows@[i].key() == id;
        },
        Table::Automation => {
            let i = choose|i: int| 0 <= i < store.automations.rows@.len() && #[trigger] store.automations.rows@[i].key() == id;
        },
        Table::AutomationHistory => {
            let i = choose|i: int| 0 <= i < store.automation_histories.rows@.len() && #[trigger] store.automation_histories.rows@[i].key() == id;
        },
        Table::Recommendation => {
            let i = choose|i: int| 0 <= i < store.recommendations.rows@.len() && #[trigger] store.recommendations.rows@[i].key() == id;
        },
        Table::PestControl => {
            let i = choose|i: int| 0 <= i < store.pest_controls.rows@.len() && #[trigger] store.pest_controls.rows@[i].key() == id;
        },
        Table::Notification => {
            let i = choose|i: int| 0 <= i < store.notifications.rows@.len() && #[trigger] store.notifications.rows@[i].key() == id;
        },
    }
}

/// The keys that the lookups find name rows of the store.
pub proof fn lemma_known_valid(store: &Store, upto: nat)
    requires
        store.wf(),
        known(store, upto) is Some,
        upto <= ITEMS,
    ensures
        valid(store, known(store, upto)->0, upto),
    decreases upto,
{
    if upto > 0 {
        let item = (upto - 1) as u8;
        lemma_known_valid(store, (upto - 1) as nat);
        let keys = known(store, (upto - 1) as nat)->0;
        lemma_found_exists(store, item_table(item), item_name(item), item_parent(item, keys));
        let id = found(store, item, keys)->0;
        lemma_key_in_range(store, item_table(item), id);
        assert((id as i32) as int == id);
    }
}

/// The row that seeding inserts for an item refers to rows of the store,
/// where the keys known name rows of the store.
pub proof fn lemma_described_links(
    store: &Store,
    record: Record,
    item: u8,
    keys: Keys,
    hash: Seq<char>,
    at: Timestamp,
)
    requires
        item < ITEMS,
        describes(record, item, keys, hash, at),
        valid(store, keys, reach(item)),
    ensures
        links(store, record),
{
}

/// The number of items whose keys are known when `item` is being worked on.
pub open spec fn reach(item: u8) -> nat {
    if item < ITEMS {
        item as nat
    } else {
        ITEMS as nat
    }
}

/// Whether a row is a row of the item: of its table and one that the item's
/// lookup finds.
pub open spec fn meets(record: Record, item: u8, keys: Keys) -> bool {
    &&& record.table_spec() == item_table(item)
    &&& item < ITEMS ==> record.fits(item_name(item), item_parent(item, keys))
}

/// The row that seeding inserts for an item is a row of that item.
pub proof fn lemma_described(record: Record, item: u8, keys: Keys, hash: Seq<char>, at: Timestamp)
    requires
        item < ITEMS,
        describes(record, item, keys, hash, at),
    ensures
        meets(record, item, keys),
{
}

/// Where all of the first `upto` lookups find a row, so do the first `k`.
pub proof fn lemma_known_prefix(store: &Store, upto: nat, k: nat)
    requires
        known(store, upto) is Some,
        k <= upto,
    ensures
        known(store, k) is Some,
    decreases upto,
{
    if k < upto {
        lemma_known_prefix(store, (upto - 1) as nat, k);
    }
}

/// What the lookups found stays found in a store that keeps every first fit.
pub proof fn lemma_known_carries(before: &Store, after: &Store, upto: nat)
    requires
        keeps_first(after, before),
        known(before, upto) is Some,
    ensures
        known(after, upto) == known(before, upto),
    decreases upto,
{
    if upto > 0 {
        lemma_known_carries(before, after, (upto - 1) as nat);
        let keys = known(before, (upto - 1) as nat)->0;
        assert(before.first_key(
            item_table((upto - 1) as u8),
            item_name((upto - 1) as u8),
            item_parent((upto - 1) as u8, keys),
        ) is Some);
    }
}

/// Stores that hold the same rows agree on what the
/// lookups find.
pub proof fn lemma_known_same(a: &Store, b: &Store, upto: nat)
    requires
        a.same(b),
        upto <= ITEMS,
    ensures
        known(a, upto) == known(b, upto),
    decreases upto,
{
    if upto > 0 {
        lemma_known_same(a, b, (upto - 1) as nat);
    }
}

/// The number of items whose rows are accounted for, given the event that is
/// pending.
pub open spec fn done(state: SeedState, event: SeedEvent) -> int {
    match event {
        SeedEvent::Found(Ok(Some(_))) => state.item + 1,
        SeedEvent::Inserted(Ok(_)) => state.item + 1,
        _ => state.item as int,
    }
}

/// The row is the row of the item as seeding makes it, at some instant, before
/// the store has given it a key.
pub open spec fn drafted(row: Record, item: u8, keys: Keys, hash: Seq<char>) -> bool {
    exists|at: Timestamp| #[trigger] describes(row, item, keys, hash, at)
}

/// What holds of the store throughout a run: the rows that were there stand
/// unchanged at the head of their tables, the rows of the items accounted for
/// are placed, the keys remember what the lookups find, and the hash, once it
/// is there, matches the seeded password.
pub open spec fn kept(store: &Store, origin: &Store, state: SeedState, upto: int) -> bool {
    &&& extends(store, origin)
    &&& placed_upto(origin, store, state.keys, state.hash@, upto)
    &&& remembered(store, state.keys, state.item as int)
    &&& state.item > 2 ==> at_rest("1234"@, state.hash@)
}

/// What holds between two steps: the store is consistent, the keys of the
/// items done so far are those that their lookups find, the event tells the
/// truth about the store, a store that was seeded before is as it was, and a
/// store that had room has room for the rest and has not refused anything.
pub open spec fn on_track(store: &Store, origin: &Store, state: SeedState, event: SeedEvent) -> bool {
    &&& store.wf()
    &&& state.item <= ITEMS
    &&& known(store, reach(state.item)) == Some(state.keys)
    &&& match event {
        SeedEvent::Found(Ok(Some(id))) => state.item < ITEMS && found(
            store,
            state.item,
            state.keys,
        ) == Some(id as int),
        SeedEvent::Found(Ok(None)) => state.item < ITEMS && found(
            store,
            state.item,
            state.keys,
        ) is None,
        SeedEvent::Inserted(Ok(id)) => state.item < ITEMS && found(
            store,
            state.item,
            state.keys,
        ) == Some(id as int),
        SeedEvent::Found(Err(_)) => !roomy(origin),
        SeedEvent::Inserted(Err(_)) => !roomy(origin),
        SeedEvent::Begin => true,
    }
    &&& seeded(origin) ==> store.same(origin)
    &&& roomy(origin) ==> spacious(store, pending(state, event))
    &&& roomy(origin) && state.item > 2 ==> known(store, 3) is Some
    &&& kept(store, origin, state, done(state, event))
}

/// What holds when a step has been decided and not yet performed.
pub open spec fn ready(store: &Store, origin: &Store, state: SeedState, next: SeedNext) -> bool {
    &&& store.wf()
    &&& state.item <= ITEMS
    &&& seeded(origin) ==> store.same(origin)
    &&& extends(store, origin)
    &&& match next {
        SeedNext::Find(l) => {
            &&& roomy(origin) ==> spacious(store, state.item as int)
            &&& roomy(origin) && state.item > 2 ==> known(store, 3) is Some
            &&& state.item < ITEMS
            &&& looks_for(l, state.item, state.keys)
            &&& known(store, reach(state.item)) == Some(state.keys)
            &&& kept(store, origin, state, state.item as int)
        },
        SeedNext::Insert(r) => {
            &&& roomy(origin) ==> spacious(store, state.item as int)
            &&& roomy(origin) && state.item > 2 ==> known(store, 3) is Some
            &&& state.item < ITEMS
            &&& meets(r, state.item, state.keys)
            &&& drafted(r, state.item, state.keys, state.hash@)
            &&& links(store, r)
            &&& known(store, reach(state.item)) == Some(state.keys)
            &&& found(store, state.item, state.keys) is None
            &&& kept(store, origin, state, state.item as int)
        },
        SeedNext::Finish(Ok(())) => {
            &&& state.item == ITEMS
            &&& known(store, ITEMS as nat) == Some(state.keys)
            &&& kept(store, origin, state, ITEMS as int)
        },
        SeedNext::Finish(Err(SeedError::Database(_))) => !roomy(origin),
        SeedNext::Finish(Err(SeedError::Hash)) => known(store, 3) is Some,
    }
}

/// Room for the items from one item on is room for the items from any later
/// item on.
proof fn lemma_spacious_on(store: &Store, origin: &Store, from: int, later: int)
    requires
        roomy(origin) ==> spacious(store, from),
        from <= later,
    ensures
        roomy(origin) ==> spacious(store, later),
{
    if roomy(origin) {
        assert forall|t: Table| #[trigger] next_key(store, t) + left(t, later) <= i32::MAX by {
            assert(next_key(store, t) + left(t, from) <= i32::MAX);
        }
    }
}

/// Once the row of an item is known under the key that its lookup finds, what
/// holds of the store holds with that key remembered and the next item begun.
proof fn lemma_advanced(
    store: &Store,
    origin: &Store,
    state: SeedState,
    id: i32,
    after: SeedState,
)
    requires
        store.wf(),
        state.item < ITEMS,
        known(store, reach(state.item)) == Some(state.keys),
        found(store, state.item, state.keys) == Some(id as int),
        kept(store, origin, state, state.item + 1),
        after.item == state.item + 1,
        after.keys == remember(state.keys, state.item, id),
        state.item != 2 ==> after.hash == state.hash,
        after.item > 2 ==> at_rest("1234"@, after.hash@),
    ensures
        known(store, reach(after.item)) == Some(after.keys),
        kept(store, origin, after, after.item as int),
{
    let k = state.item;
    assert(known(store, (k + 1) as nat) == Some(remember(state.keys, k, id))) by {
        assert(known(store, k as nat) == Some(state.keys));
        assert((id as int) as i32 == id);
    }
    assert forall|j: u8| j < k + 1 implies #[trigger] placed(
        origin,
        store,
        j,
        after.keys,
        after.hash@,
    ) by {
        assert(placed(origin, store, j, state.keys, state.hash@));
        lemma_reframe(origin, store, j, k, state.keys, id, state.hash@, after.hash@);
    }
    assert forall|t: Table|
        #[trigger] count(store, t) == count(origin, t) + lacking(
            origin,
            t,
            after.keys,
            k + 1,
        ) by {
        lemma_lacking_unread(origin, t, state.keys, k, id, k + 1);
    }
    assert forall|j: u8| j < k + 1 && (#[trigger] slot(after.keys, j)) is Some implies found(
        store,
        j,
        after.keys,
    ) == Some(slot(after.keys, j)->0 as int) by {
        lemma_unread(j, k, state.keys, id);
        lemma_unread(k, k, state.keys, id);
        if j < k {
            assert(slot(after.keys, j) == slot(state.keys, j));
            assert(slot(state.keys, j) is Some);
        }
    }
}

/// A step that seeding allows leads from a state on track to a step that is
/// ready to be performed.
pub proof fn lemma_decided(
    store: &Store,
    origin: &Store,
    state: SeedState,
    event: SeedEvent,
    hashed: Option<String>,
    at: Timestamp,
    after: SeedState,
    next: SeedNext,
)
    requires
        on_track(store, origin, state, event),
        steps(state, event, hashed, at, after, next),
        hashed matches Some(h) ==> at_rest("1234"@, h@),
    ensures
        ready(store, origin, after, next),
        after.item <= ITEMS,
        match next {
            SeedNext::Finish(_) => true,
            _ => 4 * (ITEMS - after.item) + 3 <= 4 * (ITEMS - state.item) + phase(event) || (
            after.item == state.item && phase(event) >= 2),
        },
{
    if state.item < ITEMS {
        lemma_known_valid(store, reach(state.item));
        match event {
            SeedEvent::Found(Ok(None)) => {
                let r = next->Insert_0;
                lemma_described(r, state.item, state.keys, state.hash@, at);
                lemma_described_links(store, r, state.item, state.keys, state.hash@, at);
                assert(describes(r, state.item, state.keys, state.hash@, at));
            },
            SeedEvent::Found(Ok(Some(id))) => {
                lemma_settled(store, origin, state, id, hashed, after, next);
                if after.item > state.item {
                    lemma_spacious_on(store, origin, state.item as int, after.item as int);
                }
            },
            SeedEvent::Inserted(Ok(id)) => {
                lemma_settled(store, origin, state, id, hashed, after, next);
                if after.item > state.item {
                    lemma_spacious_on(store, origin, state.item + 1, after.item as int);
                }
            },
            _ => {},
        }
    }
}

/// The step that follows once the row of an item is known.
proof fn lemma_settled(
    store: &Store,
    origin: &Store,
    state: SeedState,
    id: i32,
    hashed: Option<String>,
    after: SeedState,
    next: SeedNext,
)
    requires
        store.wf(),
        state.item < ITEMS,
        known(store, reach(state.item)) == Some(state.keys),
        found(store, state.item, state.keys) == Some(id as int),
        kept(store, origin, state, state.item + 1),
        roomy(origin) && state.item > 2 ==> known(store, 3) is Some,
        hashed matches Some(h) ==> at_rest("1234"@, h@),
        after.keys == remember(state.keys, state.item, id),
        if state.item == 2 {
            match hashed {
                Some(h) => after.item == 3 && after.hash == h && opens(next, 3, after.keys),
                None => after.item == 2 && after.hash == state.hash && next == SeedNext::Finish(
                    Err(SeedError::Hash),
                ),
            }
        } else {
            &&& after.item == state.item + 1
            &&& after.hash == state.hash
            &&& opens(next, after.item, after.keys)
        },
    ensures
        after.item <= ITEMS,
        after.item >= state.item,
        match next {
            SeedNext::Find(l) => {
                &&& after.item < ITEMS
                &&& after.item == state.item + 1
                &&& looks_for(l, after.item, after.keys)
                &&& known(store, reach(after.item)) == Some(after.keys)
                &&& kept(store, origin, after, after.item as int)
                &&& after.item > 2 ==> known(store, 3) is Some
            },
            SeedNext::Insert(_) => false,
            SeedNext::Finish(Ok(())) => {
                &&& after.item == ITEMS
                &&& known(store, ITEMS as nat) == Some(after.keys)
                &&& kept(store, origin, after, ITEMS as int)
            },
            SeedNext::Finish(Err(e)) => e == SeedError::Hash && known(store, 3) is Some,
        },
{
    let k = state.item;
    assert(known(store, (k + 1) as nat) == Some(remember(state.keys, k, id))) by {
        assert(known(store, k as nat) == Some(state.keys));
        assert((id as int) as i32 == id);
    }
    if after.item == k + 1 {
        lemma_advanced(store, origin, state, id, after);
        if after.item > 2 {
            lemma_known_prefix(store, (k + 1) as nat, 3);
        }
    }
}

/// A lookup that has been performed leaves seeding on track.
pub proof fn lemma_looked_up(
    store: &Store,
    origin: &Store,
    state: SeedState,
    lookup: seeder::Lookup,
    outcome: Result<Option<i32>, crate::db::DbError>,
)
    requires
        ready(store, origin, state, SeedNext::Find(lookup)),
        match outcome {
            Ok(Some(key)) => store.first_key(lookup.table, text(lookup.name), lookup.parent) == Some(
                key as int,
            ),
            Ok(None) => store.first_key(lookup.table, text(lookup.name), lookup.parent) is None,
            Err(_) => false,
        },
    ensures
        on_track(store, origin, state, SeedEvent::Found(outcome)),
{
    assert(text(lookup.name) == item_name(state.item));
    if outcome matches Ok(Some(key)) {
        let k = state.item;
        lemma_found_before(origin, store, k, state.keys, state.hash@);
        assert(grown_in(store, origin, item_table(k)));
        lemma_extends_keeps(
            store,
            origin,
            item_table(k),
            item_name(k),
            item_parent(k, state.keys),
        );
        assert(placed(origin, store, k, state.keys, state.hash@));
        assert forall|t: Table|
            #[trigger] count(store, t) == count(origin, t) + lacking(
                origin,
                t,
                state.keys,
                k + 1,
            ) by {
            assert(count(store, t) == count(origin, t) + lacking(origin, t, state.keys, k as int));
        }
    }
}

/// A store with room takes the row that is ready to be inserted: its
/// references are met, its table has a key left, and no row goes by its name
/// where names are unique.
pub proof fn lemma_admitted(store: &Store, state: SeedState, record: Record)
    requires
        store.wf(),
        state.item < ITEMS,
        meets(record, state.item, state.keys),
        links(store, record),
        found(store, state.item, state.keys) is None,
        spacious(store, state.item as int),
    ensures
        store.admits(record),
{
    assert(next_key(store, item_table(state.item)) + left(
        item_table(state.item),
        state.item as int,
    ) <= i32::MAX);
    match record {
        Record::UserRole(row) => {
            lemma_first_fit(store.user_roles.rows@, item_name(state.item), None);
        },
        Record::User(row) => {
            lemma_first_fit(store.users.rows@, item_name(state.item), None);
        },
        _ => {},
    }
}

/// The row that seeding makes for an item carries the key 0.
proof fn lemma_drafted_unkeyed(row: Record, item: u8, keys: Keys, hash: Seq<char>)
    requires
        item < ITEMS,
        drafted(row, item, keys, hash),
    ensures
        key_of(row) == 0,
{
    let at = choose|at: Timestamp| #[trigger] describes(row, item, keys, hash, at);
    assert(describes(row, item, keys, hash, at));
}

/// The rows that were placed stay placed, and the keys that were remembered
/// stay right, when a store gains a row or stays as it is.
proof fn lemma_kept_on(
    before: &Store,
    store: &Store,
    origin: &Store,
    state: SeedState,
)
    requires
        state.item <= ITEMS,
        kept(before, origin, state, state.item as int),
        extends(store, before),
        keeps_first(store, before),
    ensures
        extends(store, origin),
        forall|j: u8| j < state.item ==> #[trigger] placed(origin, store, j, state.keys, state.hash@),
        remembered(store, state.keys, state.item as int),
{
    let keys = state.keys;
    let h = state.hash@;
    lemma_extends_trans(store, before, origin);
    assert forall|j: u8| j < state.item implies #[trigger] placed(origin, store, j, keys, h) by {
        assert(placed(origin, before, j, keys, h));
        assert(grown_in(store, before, item_table(j)));
        assert(before.first_key(item_table(j), item_name(j), item_parent(j, keys)) is Some);
        lemma_regrow(origin, before, store, j, keys, h);
    }
    assert forall|j: u8| j < state.item && (#[trigger] slot(keys, j)) is Some implies found(
        store,
        j,
        keys,
    ) == Some(slot(keys, j)->0 as int) by {
        assert(before.first_key(item_table(j), item_name(j), item_parent(j, keys)) is Some);
    }
}

/// The row that a store has gained for an item is placed.
proof fn lemma_placed_new(
    before: &Store,
    store: &Store,
    origin: &Store,
    state: SeedState,
    row: Record,
    key: int,
)
    requires
        state.item < ITEMS,
        extends(before, origin),
        count(before, item_table(state.item)) == count(origin, item_table(state.item)) + lacking(
            origin,
            item_table(state.item),
            state.keys,
            state.item as int,
        ),
        found(before, state.item, state.keys) is None,
        found(store, state.item, state.keys) == Some(key),
        row.table_spec() == item_table(state.item),
        drafted(row, state.item, state.keys, state.hash@),
        store.gained(before, row, key),
        i32::MIN <= key <= i32::MAX,
    ensures
        placed(origin, store, state.item, state.keys, state.hash@),
        extends(store, before),
        forall|t: Table|
            #[trigger] count(store, t) == count(before, t) + if t == item_table(state.item) {
                1int
            } else {
                0int
            },
{
    let k = state.item;
    let keys = state.keys;
    let table = item_table(k);
    lemma_drafted_unkeyed(row, k, keys, state.hash@);
    lemma_gained_extends(store, before, row, key);
    assert(grown_in(before, origin, table));
    assert(grown_in(store, before, table));
    if found(origin, k, keys) is Some {
        lemma_extends_keeps(before, origin, table, item_name(k), item_parent(k, keys));
    }
    assert forall|t: Table|
        #[trigger] count(store, t) == count(before, t) + if t == table {
            1int
        } else {
            0int
        } by {
    }
}

/// An insert that has been performed leaves seeding on track. A store that
/// was seeded before is never asked to take a row, and a store that had room
/// refuses nothing.
pub proof fn lemma_inserted(
    before: &Store,
    store: &Store,
    origin: &Store,
    state: SeedState,
    row: Record,
    outcome: Result<i32, crate::db::DbError>,
)
    requires
        ready(before, origin, state, SeedNext::Insert(row)),
        store.wf(),
        match outcome {
            Ok(key) => before.admits(row) && store.gained(before, row, key as int),
            Err(_) => !before.admits(row) && store.same(before),
        },
    ensures
        on_track(store, origin, state, SeedEvent::Inserted(outcome)),
{
    let k = state.item;
    let keys = state.keys;
    let h = state.hash@;
    if seeded(origin) {
        lemma_known_same(before, origin, ITEMS as nat);
        lemma_known_prefix(before, ITEMS as nat, (k + 1) as nat);
        assert(known(before, (k + 1) as nat) is Some);
        assert(known(before, k as nat) == Some(keys));
        assert(false);
    }
    if roomy(origin) {
        lemma_admitted(before, state, row);
    }
    match outcome {
        Ok(key) => {
            assert(keeps_first(store, before)) by {
                assert forall|t: Table, n: Option<Seq<char>>, p: Option<Parent>|
                    (#[trigger] before.first_key(t, n, p)) is Some implies store.first_key(t, n, p)
                    == before.first_key(t, n, p) by {
                    store.lemma_gained_stable(before, row, key as int, t, n, p);
                }
            }
            lemma_known_carries(before, store, k as nat);
            if roomy(origin) && k > 2 {
                lemma_known_carries(before, store, 3);
            }
            store.lemma_gained_first(before, row, key as int, item_name(k), item_parent(k, keys));
            if roomy(origin) {
                assert forall|t: Table| #[trigger] next_key(store, t) + left(t, k + 1)
                    <= i32::MAX by {
                    assert(next_key(before, t) + left(t, k as int) <= i32::MAX);
                }
            }
            lemma_placed_new(before, store, origin, state, row, key as int);
            lemma_kept_on(before, store, origin, state);
            lemma_counted(before, store, origin, state);
        },
        Err(_) => {
            assert(keeps_first(store, before));
            lemma_known_carries(before, store, k as nat);
            lemma_same_extends(store, before);
            lemma_kept_on(before, store, origin, state);
            assert forall|t: Table|
                #[trigger] count(store, t) == count(origin, t) + lacking(origin, t, keys, k as int) by {
                assert(count(before, t) == count(origin, t) + lacking(origin, t, keys, k as int));
            }
        },
    }
}

/// Once the row of an item that the store lacked has been added to its table,
/// every table holds the rows that were there and one more for each item up
/// to this one that was lacking.
proof fn lemma_counted(before: &Store, store: &Store, origin: &Store, state: SeedState)
    requires
        state.item < ITEMS,
        extends(before, origin),
        found(before, state.item, state.keys) is None,
        forall|t: Table|
            #[trigger] count(before, t) == count(origin, t) + lacking(
                origin,
                t,
                state.keys,
                state.item as int,
            ),
        forall|t: Table|
            #[trigger] count(store, t) == count(before, t) + if t == item_table(state.item) {
                1int
            } else {
                0int
            },
    ensures
        forall|t: Table|
            #[trigger] count(store, t) == count(origin, t) + lacking(
                origin,
                t,
                state.keys,
                state.item + 1,
            ),
{
    let k = state.item;
    let keys = state.keys;
    let table = item_table(k);
    if found(origin, k, keys) is Some {
        assert(grown_in(before, origin, table));
        lemma_extends_keeps(before, origin, table, item_name(k), item_parent(k, keys));
    }
    assert forall|t: Table|
        #[trigger] count(store, t) == count(origin, t) + lacking(origin, t, keys, k + 1) by {
        assert(count(before, t) == count(origin, t) + lacking(origin, t, keys, k as int));
        assert(count(store, t) == count(before, t) + if t == table {
            1int
        } else {
            0int
        });
    }
}

/// What a run of seeding that succeeded leaves, for some hash that matches
/// the seeded password: every item has a row; the row of an item that the
/// store held before is that row; the row of an item that it did not hold is
/// the row that seeding makes, with that hash where it is a user, placed
/// behind the rows that were there; and no table holds any other new row.
pub open spec fn settled(before: &Store, after: &Store, hash: Seq<char>) -> bool {
    &&& known(after, ITEMS as nat) is Some
    &&& at_rest("1234"@, hash)
    &&& placed_upto(before, after, known(after, ITEMS as nat)->0, hash, ITEMS as int)
    &&& remembered(after, known(after, ITEMS as nat)->0, ITEMS as int)
}

/// What one run of seeding makes of a store.
///
/// - Whatever the outcome, every row that was in the store is still there,
///   unchanged and in its place, and what is new stands behind.
/// - Where it succeeds, the store is settled.
/// - Where the store held a row for every item before, it is as it was.
/// - Where every table had keys left for the items that belong to it, the
///   store refuses nothing: the roles are in place whatever the outcome, and
///   seeding succeeds unless the password cannot be hashed.
pub open spec fn seeds(before: &Store, after: &Store, outcome: Result<(), SeedError>) -> bool {
    &&& extends(after, before)
    &&& outcome is Ok ==> exists|hash: Seq<char>| #[trigger] settled(before, after, hash)
    &&& seeded(before) ==> after.same(before)
    &&& roomy(before) ==> known(after, 3) is Some
    &&& roomy(before) ==> outcome is Ok || outcome == Err::<(), SeedError>(SeedError::Hash)
}

/// Seeding twice in succession duplicates nothing: after a run that
/// succeeded, a second run leaves every table as the first run left it.
pub proof fn law_reseeding(
    first: &Store,
    second: &Store,
    third: &Store,
    again: Result<(), SeedError>,
)
    requires
        seeds(first, second, Ok(())),
        seeds(second, third, again),
    ensures
        third.same(second),
{
    let hash = choose|hash: Seq<char>| #[trigger] settled(first, second, hash);
}

/// The keys of the reference data in a store that was empty before seeding.
pub open spec fn fresh_keys() -> Keys {
    Keys {
        admin_role: 1,
        farmer_role: 2,
        consultant_role: 3,
        farmer: 2,
        seed: 1,
        land: 1,
        sensor: 1,
        valve: 1,
        pump: 1,
        automation: 1,
    }
}

/// The position that the row of an item takes in its table when the store was
/// empty before seeding.
pub open spec fn fresh_position(item: u8) -> int {
    if item == 1 || item == 4 || item == 16 {
        1
    } else if item == 2 || item == 5 || item == 17 {
        2
    } else {
        0
    }
}

/// Each item has its row at its position, made with the hash, with the keys
/// a store has that was empty before seeding, and the hash is one of the seeded
/// password as it is kept at rest.
pub open spec fn fresh(after: &Store, hash: Seq<char>) -> bool {
    &&& at_rest("1234"@, hash)
    &&& forall|k: u8|
        k < ITEMS ==> #[trigger] made(
            record(after, item_table(k), fresh_position(k)),
            k,
            fresh_keys(),
            hash,
        ) && key_of(record(after, item_table(k), fresh_position(k))) == fresh_position(k) + 1
}

/// In a store that was empty before seeding, the lookup of each item finds
/// the row at the item's position, which is the row that seeding made for it.
proof fn lemma_fresh_item(before: &Store, after: &Store, keys: Keys, hash: Seq<char>, k: u8)
    requires
        before.is_empty(),
        k < ITEMS,
        placed(before, after, k, keys, hash),
    ensures
        found(after, k, keys) == Some(fresh_position(k) + 1),
        made(record(after, item_table(k), fresh_position(k)), k, keys, hash),
        key_of(record(after, item_table(k), fresh_position(k))) == fresh_position(k) + 1,
{
    assert forall|j: u8| j < ITEMS implies found(before, j, keys) is None by {
    }
    assert(lacking(before, item_table(k), keys, k as int) == fresh_position(k));
    assert(count(before, item_table(k)) == 0);
    assert(next_key(before, item_table(k)) == 1);
}

/// In a store that was empty before seeding, the keys are those of the first
/// rows of the tables, but for the second and third role and the second user.
proof fn lemma_fresh_keys(before: &Store, after: &Store, keys: Keys, hash: Seq<char>)
    requires
        before.is_empty(),
        placed_upto(before, after, keys, hash, ITEMS as int),
        remembered(after, keys, ITEMS as int),
    ensures
        keys == fresh_keys(),
{
    assert(placed(before, after, 0, keys, hash));
    assert(placed(before, after, 1, keys, hash));
    assert(placed(before, after, 2, keys, hash));
    assert(placed(before, after, 4, keys, hash));
    assert(placed(before, after, 6, keys, hash));
    assert(placed(before, after, 7, keys, hash));
    assert(placed(before, after, 8, keys, hash));
    assert(placed(before, after, 11, keys, hash));
    assert(placed(before, after, 12, keys, hash));
    assert(placed(before, after, 13, keys, hash));
    lemma_fresh_item(before, after, keys, hash, 0);
    lemma_fresh_item(before, after, keys, hash, 1);
    lemma_fresh_item(before, after, keys, hash, 2);
    lemma_fresh_item(before, after, keys, hash, 4);
    lemma_fresh_item(before, after, keys, hash, 6);
    lemma_fresh_item(before, after, keys, hash, 7);
    lemma_fresh_item(before, after, keys, hash, 8);
    lemma_fresh_item(before, after, keys, hash, 11);
    lemma_fresh_item(before, after, keys, hash, 12);
    lemma_fresh_item(before, after, keys, hash, 13);
    assert(slot(keys, 0) is Some && slot(keys, 1) is Some && slot(keys, 2) is Some);
    assert(slot(keys, 4) is Some && slot(keys, 6) is Some && slot(keys, 7) is Some);
    assert(slot(keys, 8) is Some && slot(keys, 11) is Some && slot(keys, 12) is Some);
    assert(slot(keys, 13) is Some);
    assert(keys.admin_role == 1 && keys.farmer_role == 2 && keys.consultant_role == 3);
    assert(keys.farmer == 2 && keys.seed == 1 && keys.land == 1 && keys.sensor == 1);
    assert(keys.valve == 1 && keys.pump == 1 && keys.automation == 1);
}

/// In a store that was empty before seeding, each table holds one row for
/// each of its items.
proof fn lemma_fresh_counts(before: &Store, after: &Store, keys: Keys, hash: Seq<char>, t: Table)
    requires
        before.is_empty(),
        placed_upto(before, after, keys, hash, ITEMS as int),
    ensures
        count(after, t) == left(t, 0),
{
    assert forall|j: u8| j < ITEMS implies found(before, j, keys) is None by {
    }
    assert(count(after, t) == count(before, t) + lacking(before, t, keys, ITEMS as int));
    assert(count(before, t) == 0);
}

/// Seeding an empty store leaves exactly the reference data: three roles,
/// three users, three recommendations and one row in each other table; each
/// row is the row that seeding makes for its item, with the keys of the rows
/// it refers to, and each user carries a hash of the seeded password as it is
/// kept at rest.
pub proof fn law_fresh_seed(before: &Store, after: &Store)
    requires
        before.is_empty(),
        seeds(before, after, Ok(())),
    ensures
        after.user_roles.rows@.len() == 3,
        after.users.rows@.len() == 3,
        after.seeds.rows@.len() == 1,
        after.lands.rows@.len() == 1,
        after.sensors.rows@.len() == 1,
        after.sensor_histories.rows@.len() == 1,
        after.plants.rows@.len() == 1,
        after.valves.rows@.len() == 1,
        after.pumps.rows@.len() == 1,
        after.automations.rows@.len() == 1,
        after.automation_histories.rows@.len() == 1,
        after.recommendations.rows@.len() == 3,
        after.pest_controls.rows@.len() == 1,
        after.notifications.rows@.len() == 1,
        known(after, ITEMS as nat) == Some(fresh_keys()),
        exists|hash: Seq<char>| #[trigger] fresh(after, hash),
{
    let hash = choose|hash: Seq<char>| #[trigger] settled(before, after, hash);
    let keys = known(after, ITEMS as nat)->0;
    lemma_fresh_counts(before, after, keys, hash, Table::UserRole);
    lemma_fresh_counts(before, after, keys, hash, Table::User);
    lemma_fresh_counts(before, after, keys, hash, Table::Seed);
    lemma_fresh_counts(before, after, keys, hash, Table::Land);
    lemma_fresh_counts(before, after, keys, hash, Table::Sensor);
    lemma_fresh_counts(before, after, keys, hash, Table::SensorHistory);
    lemma_fresh_counts(before, after, keys, hash, Table::Plant);
    lemma_fresh_counts(before, after, keys, hash, Table::Valve);
    lemma_fresh_counts(before, after, keys, hash, Table::Pump);
    lemma_fresh_counts(before, after, keys, hash, Table::Automation);
    lemma_fresh_counts(before, after, keys, hash, Table::AutomationHistory);
    lemma_fresh_counts(before, after, keys, hash, Table::Recommendation);
    lemma_fresh_counts(before, after, keys, hash, Table::PestControl);
    lemma_fresh_counts(before, after, keys, hash, Table::Notification);
    lemma_fresh_keys(before, after, keys, hash);
    assert forall|k: u8| k < ITEMS implies #[trigger] made(
        record(after, item_table(k), fresh_position(k)),
        k,
        fresh_keys(),
        hash,
    ) && key_of(record(after, item_table(k), fresh_position(k))) == fresh_position(k) + 1 by {
        assert(placed(before, after, k, keys, hash));
        lemma_fresh_item(before, after, keys, hash, k);
    }
    assert(at_rest("1234"@, hash));
    assert(fresh(after, hash));
}

/// After seeding an empty store, the user "november rain" logs in with the
/// seeded password and has the role "farmer".
pub proof fn law_seeded_login(before: &Store, after: &Store, form: LoginRequest)
    requires
        before.is_empty(),
        after.wf(),
        seeds(before, after, Ok(())),
        form.username@ == "november rain"@,
        form.password@ == "1234"@,
    ensures
        authenticates(after, form) is Some,
        authenticates(after, form)->0.id == 2,
        after.role_of(authenticates(after, form)->0) is Some,
        after.role_of(authenticates(after, form)->0)->0.name@ == "farmer"@,
{
    law_fresh_seed(before, after);
    let hash = choose|hash: Seq<char>| #[trigger] fresh(after, hash);
    let keys = fresh_keys();
    assert(made(record(after, item_table(4), fresh_position(4)), 4, keys, hash));
    assert(made(record(after, item_table(1), fresh_position(1)), 1, keys, hash));
    let at4 = choose|at: Timestamp|
        #[trigger] describes(unkeyed(record(after, Table::User, 1)), 4, keys, hash, at);
    let at1 = choose|at: Timestamp|
        #[trigger] describes(unkeyed(record(after, Table::UserRole, 1)), 1, keys, hash, at);
    assert(describes(unkeyed(record(after, Table::User, 1)), 4, keys, hash, at4));
    assert(describes(unkeyed(record(after, Table::UserRole, 1)), 1, keys, hash, at1));
    lemma_known_prefix(after, ITEMS as nat, 5);
    lemma_known_prefix(after, ITEMS as nat, 4);
    let settled_hash = choose|h: Seq<char>| #[trigger] settled(before, after, h);
    assert(placed(before, after, 4, keys, settled_hash));
    assert(found(after, 4, keys) == Some(2int));
    lemma_lookup_at(after.users.rows@, 1);
    lemma_lookup_at(after.user_roles.rows@, 1);
}

/// Brings the reference data into the store: takes seeding through its steps
/// and performs each lookup and insert on the store.
pub fn seed_db(store: &mut Store) -> (r: Result<(), SeedError>)
    requires
        old(store).wf(),
    ensures
        final(store).wf(),
        seeds(old(store), final(store), r),
{
    let ghost origin = *store;
    let mut state = SeedState::new();
    let mut event = SeedEvent::Begin;
    proof {
        lemma_same_extends(store, &origin);
    }
    loop
        invariant
            origin == *old(store),
            on_track(store, &origin, state, event),
        decreases 4 * (ITEMS - state.item) + phase(event),
    {
        let ghost prior = state;
        let ghost cause = event;
        let (after, next) = seeder::seed_db(state, event);
        proof {
            let (hashed, at): (Option<String>, Timestamp) = choose|
                hashed: Option<String>,
                at: Timestamp,
            | #[trigger]
                steps(prior, cause, hashed, at, after, next) && (hashed matches Some(h)
                    ==> at_rest("1234"@, h@));
            lemma_decided(store, &origin, prior, cause, hashed, at, after, next);
        }
        match next {
            SeedNext::Find(lookup) => {
                let outcome = store.find_first(&lookup);
                proof {
                    lemma_looked_up(store, &origin, after, lookup, outcome);
                }
                state = after;
                event = SeedEvent::Found(outcome);
            },
            SeedNext::Insert(record) => {
                let ghost before = *store;
                let outcome = store.insert(record);
                proof {
                    lemma_inserted(&before, store, &origin, after, record, outcome);
                }
                state = after;
                event = SeedEvent::Inserted(outcome);
            },
            SeedNext::Finish(r) => {
                proof {
                    if r is Ok {
                        assert(settled(&origin, store, after.hash@));
                    }
                    if seeded(&origin) {
                        assert(store.same(&origin));
                    }
                }
                return r;
            },
        }
    }
}

} // verus!
