//! What a run of seeding leaves in the store, item by item: which rows it
//! finds, which rows it adds, and where the added rows stand.

use vstd::prelude::*;
use crate::handlers::Parent;
use crate::models::Record;
use crate::schema::{Row, Table};
use crate::seeder::{describes, item_name, item_parent, item_table, Keys, ITEMS};
use crate::store::rows::{lemma_first_fit, lemma_first_fit_stable, named, under};
use crate::store::Store;
use crate::values::Timestamp;

verus! {

/// The number of rows of a table.
pub open spec fn count(store: &Store, table: Table) -> int {
    match table {
        Table::UserRole => store.user_roles.rows@.len() as int,
        Table::User => store.users.rows@.len() as int,
        Table::Seed => store.seeds.rows@.len() as int,
        Table::Land => store.lands.rows@.len() as int,
        Table::Sensor => store.sensors.rows@.len() as int,
        Table::SensorHistory => store.sensor_histories.rows@.len() as int,
        Table::Plant => store.plants.rows@.len() as int,
        Table::Valve => store.valves.rows@.len() as int,
        Table::Pump => store.pumps.rows@.len() as int,
        Table::Automation => store.automations.rows@.len() as int,
        Table::AutomationHistory => store.automation_histories.rows@.len() as int,
        Table::Recommendation => store.recommendations.rows@.len() as int,
        Table::PestControl => store.pest_controls.rows@.len() as int,
        Table::Notification => store.notifications.rows@.len() as int,
    }
}

/// The row at a position of a table.
pub open spec fn record(store: &Store, table: Table, i: int) -> Record {
    match table {
        Table::UserRole => Record::UserRole(store.user_roles.rows@[i]),
        Table::User => Record::User(store.users.rows@[i]),
        Table::Seed => Record::Seed(store.seeds.rows@[i]),
        Table::Land => Record::Land(store.lands.rows@[i]),
        Table::Sensor => Record::Sensor(store.sensors.rows@[i]),
        Table::SensorHistory => Record::SensorHistory(store.sensor_histories.rows@[i]),
        Table::Plant => Record::Plant(store.plants.rows@[i]),
        Table::Valve => Record::Valve(store.valves.rows@[i]),
        Table::Pump => Record::Pump(store.pumps.rows@[i]),
        Table::Automation => Record::Automation(store.automations.rows@[i]),
        Table::AutomationHistory => Record::AutomationHistory(store.automation_histories.rows@[i]),
        Table::Recommendation => Record::Recommendation(store.recommendations.rows@[i]),
        Table::PestControl => Record::PestControl(store.pest_controls.rows@[i]),
        Table::Notification => Record::Notification(store.notifications.rows@[i]),
    }
}

/// The next key that a table of the store hands out.
pub open spec fn next_key(store: &Store, table: Table) -> int {
    match table {
        Table::UserRole => store.user_roles.next as int,
        Table::User => store.users.next as int,
        Table::Seed => store.seeds.next as int,
        Table::Land => store.lands.next as int,
        Table::Sensor => store.sensors.next as int,
        Table::SensorHistory => store.sensor_histories.next as int,
        Table::Plant => store.plants.next as int,
        Table::Valve => store.valves.next as int,
        Table::Pump => store.pumps.next as int,
        Table::Automation => store.automations.next as int,
        Table::AutomationHistory => store.automation_histories.next as int,
        Table::Recommendation => store.recommendations.next as int,
        Table::PestControl => store.pest_controls.next as int,
        Table::Notification => store.notifications.next as int,
    }
}

/// The key of a row.
pub open spec fn key_of(record: Record) -> int {
    match record {
        Record::UserRole(row) => row.key(),
        Record::User(row) => row.key(),
        Record::Seed(row) => row.key(),
        Record::Land(row) => row.key(),
        Record::Sensor(row) => row.key(),
        Record::SensorHistory(row) => row.key(),
        Record::Plant(row) => row.key(),
        Record::Valve(row) => row.key(),
        Record::Pump(row) => row.key(),
        Record::Automation(row) => row.key(),
        Record::AutomationHistory(row) => row.key(),
        Record::Recommendation(row) => row.key(),
        Record::PestControl(row) => row.key(),
        Record::Notification(row) => row.key(),
    }
}

/// The row as it was before the store gave it a key: under the key 0.
pub open spec fn unkeyed(record: Record) -> Record {
    match record {
        Record::UserRole(row) => Record::UserRole(row.keyed(0)),
        Record::User(row) => Record::User(row.keyed(0)),
        Record::Seed(row) => Record::Seed(row.keyed(0)),
        Record::Land(row) => Record::Land(row.keyed(0)),
        Record::Sensor(row) => Record::Sensor(row.keyed(0)),
        Record::SensorHistory(row) => Record::SensorHistory(row.keyed(0)),
        Record::Plant(row) => Record::Plant(row.keyed(0)),
        Record::Valve(row) => Record::Valve(row.keyed(0)),
        Record::Pump(row) => Record::Pump(row.keyed(0)),
        Record::Automation(row) => Record::Automation(row.keyed(0)),
        Record::AutomationHistory(row) => Record::AutomationHistory(row.keyed(0)),
        Record::Recommendation(row) => Record::Recommendation(row.keyed(0)),
        Record::PestControl(row) => Record::PestControl(row.keyed(0)),
        Record::Notification(row) => Record::Notification(row.keyed(0)),
    }
}

/// In the table `table`, the rows of `before` stand unchanged at the head of
/// the rows of `after`, and `after` has handed out one key for each row that
/// follows them.
pub open spec fn grown_in(after: &Store, before: &Store, table: Table) -> bool {
    &&& count(before, table) <= count(after, table)
    &&& next_key(after, table) - next_key(before, table) == count(after, table) - count(
        before,
        table,
    )
    &&& forall|i: int|
        0 <= i < count(before, table) ==> #[trigger] record(after, table, i) == record(
            before,
            table,
            i,
        )
}

/// Every row of `before` is a row of `after`, unchanged and at the same
/// position, and what `after` holds beyond them follows them.
pub open spec fn extends(after: &Store, before: &Store) -> bool {
    forall|t: Table| #[trigger] grown_in(after, before, t)
}

/// What a lookup finds, in terms of the rows: where it finds a key, a row with
/// that key meets it and no row before that one does; where it finds nothing,
/// no row meets it.
pub proof fn lemma_first_key(store: &Store, table: Table, name: Option<Seq<char>>, parent: Option<Parent>)
    ensures
        match store.first_key(table, name, parent) {
            Some(key) => exists|i: int|
                0 <= i < count(store, table) && key_of(#[trigger] record(store, table, i)) == key
                    && record(store, table, i).fits(name, parent) && forall|j: int|
                    0 <= j < i ==> !(#[trigger] record(store, table, j)).fits(name, parent),
            None => forall|i: int|
                0 <= i < count(store, table) ==> !(#[trigger] record(store, table, i)).fits(
                    name,
                    parent,
                ),
        },
{
    match table {
        Table::UserRole => {
            let s = store.user_roles.rows@;
            lemma_first_fit(s, name, parent);
            if store.first_key(table, name, parent) is Some {
                let key = store.first_key(table, name, parent)->0;
                let i = choose|i: int|
                    0 <= i < s.len() && #[trigger] s[i].key() == key && named(s[i], name) && under(
                        s[i],
                        parent,
                    ) && forall|j: int|
                        0 <= j < i ==> !(named(#[trigger] s[j], name) && under(s[j], parent));
                assert(key_of(record(store, table, i)) == key);
                assert forall|j: int| 0 <= j < i implies !(#[trigger] record(
                    store,
                    table,
                    j,
                )).fits(name, parent) by {
                    assert(!(named(s[j], name) && under(s[j], parent)));
                }
            } else {
                assert forall|i: int| 0 <= i < count(store, table) implies !(#[trigger] record(
                    store,
                    table,
                    i,
                )).fits(name, parent) by {
                    assert(!(named(s[i], name) && under(s[i], parent)));
                }
            }
        },
        Table::User => {
            let s = store.users.rows@;
            lemma_first_fit(s, name, parent);
            if store.first_key(table, name, parent) is Some {
                let key = store.first_key(table, name, parent)->0;
                let i = choose|i: int|
                    0 <= i < s.len() && #[trigger] s[i].key() == key && named(s[i], name) && under(
                        s[i],
                        parent,
                    ) && forall|j: int|
                        0 <= j < i ==> !(named(#[trigger] s[j], name) && under(s[j], parent));
                assert(key_of(record(store, table, i)) == key);
                assert forall|j: int| 0 <= j < i implies !(#[trigger] record(
                    store,
                    table,
                    j,
                )).fits(name, parent) by {
                    assert(!(named(s[j], name) && under(s[j], parent)));
                }
            } else {
                assert forall|i: int| 0 <= i < count(store, table) implies !(#[trigger] record(
                    store,
                    table,
                    i,
                )).fits(name, parent) by {
                    assert(!(named(s[i], name) && under(s[i], parent)));
                }
            }
        },
        Table::Seed => {
            let s = store.seeds.rows@;
            lemma_first_fit(s, name, parent);
            if store.first_key(table, name, parent) is Some {
                let key = store.first_key(table, name, parent)->0;
                let i = choose|i: int|
                    0 <= i < s.len() && #[trigger] s[i].key() == key && named(s[i], name) && under(
                        s[i],
                        parent,
                    ) && forall|j: int|
                        0 <= j < i ==> !(named(#[trigger] s[j], name) && under(s[j], parent));
                assert(key_of(record(store, table, i)) == key);
                assert forall|j: int| 0 <= j < i implies !(#[trigger] record(
                    store,
                    table,
                    j,
                )).fits(name, parent) by {
                    assert(!(named(s[j], name) && under(s[j], parent)));
                }
            } else {
                assert forall|i: int| 0 <= i < count(store, table) implies !(#[trigger] record(
                    store,
                    table,
                    i,
                )).fits(name, parent) by {
                    assert(!(named(s[i], name) && under(s[i], parent)));
                }
            }
        },
        Table::Land => {
            let s = store.lands.rows@;
            lemma_first_fit(s, name, parent);
            if store.first_key(table, name, parent) is Some {
                let key = store.first_key(table, name, parent)->0;
                let i = choose|i: int|
                    0 <= i < s.len() && #[trigger] s[i].key() == key && named(s[i], name) && under(
                        s[i],
                        parent,
                    ) && forall|j: int|
                        0 <= j < i ==> !(named(#[trigger] s[j], name) && under(s[j], parent));
                assert(key_of(record(store, table, i)) == key);
                assert forall|j: int| 0 <= j < i implies !(#[trigger] record(
                    store,
                    table,
                    j,
                )).fits(name, parent) by {
                    assert(!(named(s[j], name) && under(s[j], parent)));
                }
            } else {
                assert forall|i: int| 0 <= i < count(store, table) implies !(#[trigger] record(
                    store,
                    table,
                    i,
                )).fits(name, parent) by {
                    assert(!(named(s[i], name) && under(s[i], parent)));
                }
            }
        },
        Table::Sensor => {
            let s = store.sensors.rows@;
            lemma_first_fit(s, name, parent);
            if store.first_key(table, name, parent) is Some {
                let key = store.first_key(table, name, parent)->0;
                let i = choose|i: int|
                    0 <= i < s.len() && #[trigger] s[i].key() == key && named(s[i], name) && under(
                        s[i],
                        parent,
                    ) && forall|j: int|
                        0 <= j < i ==> !(named(#[trigger] s[j], name) && under(s[j], parent));
                assert(key_of(record(store, table, i)) == key);
                assert forall|j: int| 0 <= j < i implies !(#[trigger] record(
                    store,
                    table,
                    j,
                )).fits(name, parent) by {
                    assert(!(named(s[j], name) && under(s[j], parent)));
                }
            } else {
                assert forall|i: int| 0 <= i < count(store, table) implies !(#[trigger] record(
                    store,
                    table,
                    i,
                )).fits(name, parent) by {
                    assert(!(named(s[i], name) && under(s[i], parent)));
                }
            }
        },
        Table::SensorHistory => {
            let s = store.sensor_histories.rows@;
            lemma_first_fit(s, name, parent);
            if store.first_key(table, name, parent) is Some {
                let key = store.first_key(table, name, parent)->0;
                let i = choose|i: int|
                    0 <= i < s.len() && #[trigger] s[i].key() == key && named(s[i], name) && under(
                        s[i],
                        parent,
                    ) && forall|j: int|
                        0 <= j < i ==> !(named(#[trigger] s[j], name) && under(s[j], parent));
                assert(key_of(record(store, table, i)) == key);
                assert forall|j: int| 0 <= j < i implies !(#[trigger] record(
                    store,
                    table,
                    j,
                )).fits(name, parent) by {
                    assert(!(named(s[j], name) && under(s[j], parent)));
                }
            } else {
                assert forall|i: int| 0 <= i < count(store, table) implies !(#[trigger] record(
                    store,
                    table,
                    i,
                )).fits(name, parent) by {
                    assert(!(named(s[i], name) && under(s[i], parent)));
                }
            }
        },
        Table::Plant => {
            let s = store.plants.rows@;
            lemma_first_fit(s, name, parent);
            if store.first_key(table, name, parent) is Some {
                let key = store.first_key(table, name, parent)->0;
                let i = choose|i: int|
                    0 <= i < s.len() && #[trigger] s[i].key() == key && named(s[i], name) && under(
                        s[i],
                        parent,
                    ) && forall|j: int|
                        0 <= j < i ==> !(named(#[trigger] s[j], name) && under(s[j], parent));
                assert(key_of(record(store, table, i)) == key);
                assert forall|j: int| 0 <= j < i implies !(#[trigger] record(
                    store,
                    table,
                    j,
                )).fits(name, parent) by {
                    assert(!(named(s[j], name) && under(s[j], parent)));
                }
            } else {
                assert forall|i: int| 0 <= i < count(store, table) implies !(#[trigger] record(
                    store,
                    table,
                    i,
                )).fits(name, parent) by {
                    assert(!(named(s[i], name) && under(s[i], parent)));
                }
            }
        },
        Table::Valve => {
            let s = store.valves.rows@;
            lemma_first_fit(s, name, parent);
            if store.first_key(table, name, parent) is Some {
                let key = store.first_key(table, name, parent)->0;
                let i = choose|i: int|
                    0 <= i < s.len() && #[trigger] s[i].key() == key && named(s[i], name) && under(
                        s[i],
                        parent,
                    ) && forall|j: int|
                        0 <= j < i ==> !(named(#[trigger] s[j], name) && under(s[j], parent));
                assert(key_of(record(store, table, i)) == key);
                assert forall|j: int| 0 <= j < i implies !(#[trigger] record(
                    store,
                    table,
                    j,
                )).fits(name, parent) by {
                    assert(!(named(s[j], name) && under(s[j], parent)));
                }
            } else {
                assert forall|i: int| 0 <= i < count(store, table) implies !(#[trigger] record(
                    store,
                    table,
                    i,
                )).fits(name, parent) by {
                    assert(!(named(s[i], name) && under(s[i], parent)));
                }
            }
        },
        Table::Pump => {
            let s = store.pumps.rows@;
            lemma_first_fit(s, name, parent);
            if store.first_key(table, name, parent) is Some {
                let key = store.first_key(table, name, parent)->0;
                let i = choose|i: int|
                    0 <= i < s.len() && #[trigger] s[i].key() == key && named(s[i], name) && under(
                        s[i],
                        parent,
                    ) && forall|j: int|
                        0 <= j < i ==> !(named(#[trigger] s[j], name) && under(s[j], parent));
                assert(key_of(record(store, table, i)) == key);
                assert forall|j: int| 0 <= j < i implies !(#[trigger] record(
                    store,
                    table,
                    j,
                )).fits(name, parent) by {
                    assert(!(named(s[j], name) && under(s[j], parent)));
                }
            } else {
                assert forall|i: int| 0 <= i < count(store, table) implies !(#[trigger] record(
                    store,
                    table,
                    i,
                )).fits(name, parent) by {
                    assert(!(named(s[i], name) && under(s[i], parent)));
                }
            }
        },
        Table::Automation => {
            let s = store.automations.rows@;
            lemma_first_fit(s, name, parent);
            if store.first_key(table, name, parent) is Some {
                let key = store.first_key(table, name, parent)->0;
                let i = choose|i: int|
                    0 <= i < s.len() && #[trigger] s[i].key() == key && named(s[i], name) && under(
                        s[i],
                        parent,
                    ) && forall|j: int|
                        0 <= j < i ==> !(named(#[trigger] s[j], name) && under(s[j], parent));
                assert(key_of(record(store, table, i)) == key);
                assert forall|j: int| 0 <= j < i implies !(#[trigger] record(
                    store,
                    table,
                    j,
                )).fits(name, parent) by {
                    assert(!(named(s[j], name) && under(s[j], parent)));
                }
            } else {
                assert forall|i: int| 0 <= i < count(store, table) implies !(#[trigger] record(
                    store,
                    table,
                    i,
                )).fits(name, parent) by {
                    assert(!(named(s[i], name) && under(s[i], parent)));
                }
            }
        },
        Table::AutomationHistory => {
            let s = store.automation_histories.rows@;
            lemma_first_fit(s, name, parent);
            if store.first_key(table, name, parent) is Some {
                let key = store.first_key(table, name, parent)->0;
                let i = choose|i: int|
                    0 <= i < s.len() && #[trigger] s[i].key() == key && named(s[i], name) && under(
                        s[i],
                        parent,
                    ) && forall|j: int|
                        0 <= j < i ==> !(named(#[trigger] s[j], name) && under(s[j], parent));
                assert(key_of(record(store, table, i)) == key);
                assert forall|j: int| 0 <= j < i implies !(#[trigger] record(
                    store,
                    table,
                    j,
                )).fits(name, parent) by {
                    assert(!(named(s[j], name) && under(s[j], parent)));
                }
            } else {
                assert forall|i: int| 0 <= i < count(store, table) implies !(#[trigger] record(
                    store,
                    table,
                    i,
                )).fits(name, parent) by {
                    assert(!(named(s[i], name) && under(s[i], parent)));
                }
            }
        },
        Table::Recommendation => {
            let s = store.recommendations.rows@;
            lemma_first_fit(s, name, parent);
            if store.first_key(table, name, parent) is Some {
                let key = store.first_key(table, name, parent)->0;
                let i = choose|i: int|
                    0 <= i < s.len() && #[trigger] s[i].key() == key && named(s[i], name) && under(
                        s[i],
                        parent,
                    ) && forall|j: int|
                        0 <= j < i ==> !(named(#[trigger] s[j], name) && under(s[j], parent));
                assert(key_of(record(store, table, i)) == key);
                assert forall|j: int| 0 <= j < i implies !(#[trigger] record(
                    store,
                    table,
                    j,
                )).fits(name, parent) by {
                    assert(!(named(s[j], name) && under(s[j], parent)));
                }
            } else {
                assert forall|i: int| 0 <= i < count(store, table) implies !(#[trigger] record(
                    store,
                    table,
                    i,
                )).fits(name, parent) by {
                    assert(!(named(s[i], name) && under(s[i], parent)));
                }
            }
        },
        Table::PestControl => {
            let s = store.pest_controls.rows@;
            lemma_first_fit(s, name, parent);
            if store.first_key(table, name, parent) is Some {
                let key = store.first_key(table, name, parent)->0;
                let i = choose|i: int|
                    0 <= i < s.len() && #[trigger] s[i].key() == key && named(s[i], name) && under(
                        s[i],
                        parent,
                    ) && forall|j: int|
                        0 <= j < i ==> !(named(#[trigger] s[j], name) && under(s[j], parent));
                assert(key_of(record(store, table, i)) == key);
                assert forall|j: int| 0 <= j < i implies !(#[trigger] record(
                    store,
                    table,
                    j,
                )).fits(name, parent) by {
                    assert(!(named(s[j], name) && under(s[j], parent)));
                }
            } else {
                assert forall|i: int| 0 <= i < count(store, table) implies !(#[trigger] record(
                    store,
                    table,
                    i,
                )).fits(name, parent) by {
                    assert(!(named(s[i], name) && under(s[i], parent)));
                }
            }
        },
        Table::Notification => {
            let s = store.notifications.rows@;
            lemma_first_fit(s, name, parent);
            if store.first_key(table, name, parent) is Some {
                let key = store.first_key(table, name, parent)->0;
                let i = choose|i: int|
                    0 <= i < s.len() && #[trigger] s[i].key() == key && named(s[i], name) && under(
                        s[i],
                        parent,
                    ) && forall|j: int|
                        0 <= j < i ==> !(named(#[trigger] s[j], name) && under(s[j], parent));
                assert(key_of(record(store, table, i)) == key);
                assert forall|j: int| 0 <= j < i implies !(#[trigger] record(
                    store,
                    table,
                    j,
                )).fits(name, parent) by {
                    assert(!(named(s[j], name) && under(s[j], parent)));
                }
            } else {
                assert forall|i: int| 0 <= i < count(store, table) implies !(#[trigger] record(
                    store,
                    table,
                    i,
                )).fits(name, parent) by {
                    assert(!(named(s[i], name) && under(s[i], parent)));
                }
            }
        },
    }
}

/// What a lookup finds when rows have been added that do not meet it: what it
/// found before.
pub proof fn lemma_first_key_tail(
    after: &Store,
    before: &Store,
    table: Table,
    name: Option<Seq<char>>,
    parent: Option<Parent>,
)
    requires
        grown_in(after, before, table),
        before.first_key(table, name, parent) is None,
        forall|i: int|
            count(before, table) <= i < count(after, table) ==> !(#[trigger] record(
                after,
                table,
                i,
            )).fits(name, parent),
    ensures
        after.first_key(table, name, parent) is None,
{
    lemma_first_key(after, table, name, parent);
    lemma_first_key(before, table, name, parent);
    if after.first_key(table, name, parent) is Some {
        let key = after.first_key(table, name, parent)->0;
        let i = choose|i: int|
            0 <= i < count(after, table) && key_of(#[trigger] record(after, table, i)) == key
                && record(after, table, i).fits(name, parent);
        if i < count(before, table) {
            assert(record(after, table, i) == record(before, table, i));
            assert(!record(before, table, i).fits(name, parent));
        }
    }
}


/// Rows that stand behind the rows of a store do not change what a lookup finds
/// that found a row in it.
pub proof fn lemma_extends_keeps(
    after: &Store,
    before: &Store,
    table: Table,
    name: Option<Seq<char>>,
    parent: Option<Parent>,
)
    requires
        grown_in(after, before, table),
        before.first_key(table, name, parent) is Some,
    ensures
        after.first_key(table, name, parent) == before.first_key(table, name, parent),
{
    match table {
        Table::UserRole => {
            let a = after.user_roles.rows@;
            let b = before.user_roles.rows@;
            assert(a.take(b.len() as int) == b) by {
                assert forall|i: int| 0 <= i < b.len() implies a[i] == b[i] by {
                    assert(record(after, table, i) == record(before, table, i));
                }
            }
            lemma_first_fit_stable(a, b.len() as int, name, parent);
        },
        Table::User => {
            let a = after.users.rows@;
            let b = before.users.rows@;
            assert(a.take(b.len() as int) == b) by {
                assert forall|i: int| 0 <= i < b.len() implies a[i] == b[i] by {
                    assert(record(after, table, i) == record(before, table, i));
                }
            }
            lemma_first_fit_stable(a, b.len() as int, name, parent);
        },
        Table::Seed => {
            let a = after.seeds.rows@;
            let b = before.seeds.rows@;
            assert(a.take(b.len() as int) == b) by {
                assert forall|i: int| 0 <= i < b.len() implies a[i] == b[i] by {
                    assert(record(after, table, i) == record(before, table, i));
                }
            }
            lemma_first_fit_stable(a, b.len() as int, name, parent);
        },
        Table::Land => {
            let a = after.lands.rows@;
            let b = before.lands.rows@;
            assert(a.take(b.len() as int) == b) by {
                assert forall|i: int| 0 <= i < b.len() implies a[i] == b[i] by {
                    assert(record(after, table, i) == record(before, table, i));
                }
            }
            lemma_first_fit_stable(a, b.len() as int, name, parent);
        },
        Table::Sensor => {
            let a = after.sensors.rows@;
            let b = before.sensors.rows@;
            assert(a.take(b.len() as int) == b) by {
                assert forall|i: int| 0 <= i < b.len() implies a[i] == b[i] by {
                    assert(record(after, table, i) == record(before, table, i));
                }
            }
            lemma_first_fit_stable(a, b.len() as int, name, parent);
        },
        Table::SensorHistory => {
            let a = after.sensor_histories.rows@;
            let b = before.sensor_histories.rows@;
            assert(a.take(b.len() as int) == b) by {
                assert forall|i: int| 0 <= i < b.len() implies a[i] == b[i] by {
                    assert(record(after, table, i) == record(before, table, i));
                }
            }
            lemma_first_fit_stable(a, b.len() as int, name, parent);
        },
        Table::Plant => {
            let a = after.plants.rows@;
            let b = before.plants.rows@;
            assert(a.take(b.len() as int) == b) by {
                assert forall|i: int| 0 <= i < b.len() implies a[i] == b[i] by {
                    assert(record(after, table, i) == record(before, table, i));
                }
            }
            lemma_first_fit_stable(a, b.len() as int, name, parent);
        },
        Table::Valve => {
            let a = after.valves.rows@;
            let b = before.valves.rows@;
            assert(a.take(b.len() as int) == b) by {
                assert forall|i: int| 0 <= i < b.len() implies a[i] == b[i] by {
                    assert(record(after, table, i) == record(before, table, i));
                }
            }
            lemma_first_fit_stable(a, b.len() as int, name, parent);
        },
        Table::Pump => {
            let a = after.pumps.rows@;
            let b = before.pumps.rows@;
            assert(a.take(b.len() as int) == b) by {
                assert forall|i: int| 0 <= i < b.len() implies a[i] == b[i] by {
                    assert(record(after, table, i) == record(before, table, i));
                }
            }
            lemma_first_fit_stable(a, b.len() as int, name, parent);
        },
        Table::Automation => {
            let a = after.automations.rows@;
            let b = before.automations.rows@;
            assert(a.take(b.len() as int) == b) by {
                assert forall|i: int| 0 <= i < b.len() implies a[i] == b[i] by {
                    assert(record(after, table, i) == record(before, table, i));
                }
            }
            lemma_first_fit_stable(a, b.len() as int, name, parent);
        },
        Table::AutomationHistory => {
            let a = after.automation_histories.rows@;
            let b = before.automation_histories.rows@;
            assert(a.take(b.len() as int) == b) by {
                assert forall|i: int| 0 <= i < b.len() implies a[i] == b[i] by {
                    assert(record(after, table, i) == record(before, table, i));
                }
            }
            lemma_first_fit_stable(a, b.len() as int, name, parent);
        },
        Table::Recommendation => {
            let a = after.recommendations.rows@;
            let b = before.recommendations.rows@;
            assert(a.take(b.len() as int) == b) by {
                assert forall|i: int| 0 <= i < b.len() implies a[i] == b[i] by {
                    assert(record(after, table, i) == record(before, table, i));
                }
            }
            lemma_first_fit_stable(a, b.len() as int, name, parent);
        },
        Table::PestControl => {
            let a = after.pest_controls.rows@;
            let b = before.pest_controls.rows@;
            assert(a.take(b.len() as int) == b) by {
                assert forall|i: int| 0 <= i < b.len() implies a[i] == b[i] by {
                    assert(record(after, table, i) == record(before, table, i));
                }
            }
            lemma_first_fit_stable(a, b.len() as int, name, parent);
        },
        Table::Notification => {
            let a = after.notifications.rows@;
            let b = before.notifications.rows@;
            assert(a.take(b.len() as int) == b) by {
                assert forall|i: int| 0 <= i < b.len() implies a[i] == b[i] by {
                    assert(record(after, table, i) == record(before, table, i));
                }
            }
            lemma_first_fit_stable(a, b.len() as int, name, parent);
        },
    }
}

/// A store that has gained a row extends the store that it was, and holds the
/// row behind the rows of that store.
pub proof fn lemma_gained_extends(after: &Store, before: &Store, row: Record, key: int)
    requires
        after.gained(before, row, key),
        key_of(row) == 0,
        i32::MIN <= key <= i32::MAX,
    ensures
        extends(after, before),
        count(after, row.table_spec()) == count(before, row.table_spec()) + 1,
        key_of(record(after, row.table_spec(), count(before, row.table_spec()))) == key,
        unkeyed(record(after, row.table_spec(), count(before, row.table_spec()))) == row,
        forall|t: Table| t != row.table_spec() ==> #[trigger] count(after, t) == count(before, t),
{
    match row {
        Record::UserRole(draft) => {
            draft.lemma_keyed(key);
            assert(draft.keyed(key).keyed(0) == draft);
        },
        Record::User(draft) => {
            draft.lemma_keyed(key);
            assert(draft.keyed(key).keyed(0) == draft);
        },
        Record::Seed(draft) => {
            draft.lemma_keyed(key);
            assert(draft.keyed(key).keyed(0) == draft);
        },
        Record::Land(draft) => {
            draft.lemma_keyed(key);
            assert(draft.keyed(key).keyed(0) == draft);
        },
        Record::Sensor(draft) => {
            draft.lemma_keyed(key);
            assert(draft.keyed(key).keyed(0) == draft);
        },
        Record::SensorHistory(draft) => {
            draft.lemma_keyed(key);
            assert(draft.keyed(key).keyed(0) == draft);
        },
        Record::Plant(draft) => {
            draft.lemma_keyed(key);
            assert(draft.keyed(key).keyed(0) == draft);
        },
        Record::Valve(draft) => {
            draft.lemma_keyed(key);
            assert(draft.keyed(key).keyed(0) == draft);
        },
        Record::Pump(draft) => {
            draft.lemma_keyed(key);
            assert(draft.keyed(key).keyed(0) == draft);
        },
        Record::Automation(draft) => {
            draft.lemma_keyed(key);
            assert(draft.keyed(key).keyed(0) == draft);
        },
        Record::AutomationHistory(draft) => {
            draft.lemma_keyed(key);
            assert(draft.keyed(key).keyed(0) == draft);
        },
        Record::Recommendation(draft) => {
            draft.lemma_keyed(key);
            assert(draft.keyed(key).keyed(0) == draft);
        },
        Record::PestControl(draft) => {
            draft.lemma_keyed(key);
            assert(draft.keyed(key).keyed(0) == draft);
        },
        Record::Notification(draft) => {
            draft.lemma_keyed(key);
            assert(draft.keyed(key).keyed(0) == draft);
        },
    }
    assert forall|t: Table| #[trigger] grown_in(after, before, t) by {
        assert forall|i: int| 0 <= i < count(before, t) implies #[trigger] record(after, t, i)
            == record(before, t, i) by {
        }
    }
}

/// A store with the same rows and counters extends the other, and lookups find
/// the same in both.
pub proof fn lemma_same_extends(after: &Store, before: &Store)
    requires
        after.same(before),
    ensures
        extends(after, before),
        forall|t: Table| #[trigger] count(after, t) == count(before, t),
        forall|t: Table, i: int| #[trigger] record(after, t, i) == record(before, t, i),
        forall|t: Table, n: Option<Seq<char>>, p: Option<Parent>|
            #[trigger] after.first_key(t, n, p) == before.first_key(t, n, p),
{
    assert forall|t: Table| #[trigger] grown_in(after, before, t) by {
    }
}

/// Extending is transitive.
pub proof fn lemma_extends_trans(after: &Store, mid: &Store, before: &Store)
    requires
        extends(after, mid),
        extends(mid, before),
    ensures
        extends(after, before),
{
    assert forall|t: Table| #[trigger] grown_in(after, before, t) by {
        assert(grown_in(after, mid, t));
        assert(grown_in(mid, before, t));
        assert forall|i: int| 0 <= i < count(before, t) implies #[trigger] record(after, t, i)
            == record(before, t, i) by {
            assert(record(after, t, i) == record(mid, t, i));
            assert(record(mid, t, i) == record(before, t, i));
        }
    }
}

} // verus!
