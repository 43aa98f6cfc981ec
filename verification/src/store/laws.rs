//! What holds of the store's operations taken together.

use vstd::prelude::*;
use crate::schema::{Row, Table};
use crate::store::rows::{all_anchored, anchored, ascending, has_key, lemma_filter_has_key, lemma_filter_row, lemma_lookup_at, lookup, removed};
use crate::store::Store;

verus! {

/// A row that has been appended under the table's next key is the row that
/// this key looks up, it differs from the row handed in by its key only, and
/// every other key looks up what it looked up before.
pub proof fn law_created_is_found<T: Row>(rows: Seq<T>, next: int, draft: T, key: int)
    requires
        ascending(rows),
        forall|i: int| 0 <= i < rows.len() ==> 1 <= (#[trigger] rows[i]).key() < next,
        0 <= next <= i32::MAX,
    ensures
        lookup(rows.push(draft.keyed(next)), next) == Some(draft.keyed(next)),
        draft.keyed(next).key() == next,
        draft.keyed(next).label() == draft.label(),
        forall|t: Table| draft.keyed(next).parent(t) == draft.parent(t),
        key != next ==> lookup(rows.push(draft.keyed(next)), key) == lookup(rows, key),
{
    draft.lemma_keyed(next);
    let row = draft.keyed(next);
    let s = rows.push(row);
    assert(ascending(s)) by {
        assert forall|i: int, j: int| 0 <= i < j < s.len() implies s[i].key() < s[j].key() by {
            if j < rows.len() {
                assert(s[i] == rows[i] && s[j] == rows[j]);
            } else {
                assert(s[i] == rows[i]);
            }
        }
    }
    lemma_lookup_at(s, rows.len() as int);
    if key != next {
        if has_key(rows, key) {
            let i = choose|i: int| 0 <= i < rows.len() && #[trigger] rows[i].key() == key;
            assert(s[i] == rows[i]);
            lemma_lookup_at(s, i);
            lemma_lookup_at(rows, i);
        } else {
            if has_key(s, key) {
                let i = choose|i: int| 0 <= i < s.len() && #[trigger] s[i].key() == key;
                assert(s[i] == rows[i]);
                assert(false);
            }
        }
    }
}

/// Removing a key leaves no row with that key.
pub proof fn lemma_removed_is_gone<T: Row>(rows: Seq<T>, key: int)
    ensures
        !has_key(removed(rows, Some(key)), key),
{
    lemma_filter_has_key(rows, |r: T| Some(r.key()) != Some(key), key);
}

/// What is kept under a parent table holds only keys that were there.
pub proof fn lemma_anchored_keys<T: Row, P: Row>(rows: Seq<T>, table: Table, parents: Seq<P>, key: int)
    ensures
        has_key(anchored(rows, table, parents), key) ==> has_key(rows, key),
{
    lemma_filter_has_key(
        rows,
        |r: T| r.parent(table) is Some ==> has_key(parents, r.parent(table)->0),
        key,
    );
}

/// Removing no key removes no row.
pub proof fn lemma_removed_none<T: Row>(rows: Seq<T>)
    ensures
        removed(rows, None) == rows,
    decreases rows.len(),
{
    reveal(Seq::filter);
    if rows.len() > 0 {
        lemma_removed_none(rows.drop_last());
        assert(rows.drop_last().push(rows.last()) == rows);
    }
}

/// Rows whose references into a table are all met are all kept under it.
pub proof fn lemma_anchored_whole<T: Row, P: Row>(rows: Seq<T>, table: Table, parents: Seq<P>)
    requires
        all_anchored(rows, table, parents),
    ensures
        anchored(rows, table, parents) == rows,
    decreases rows.len(),
{
    reveal(Seq::filter);
    if rows.len() > 0 {
        let init = rows.drop_last();
        assert forall|i: int| 0 <= i < init.len() && (#[trigger] init[i]).parent(table) is Some implies has_key(
            parents,
            init[i].parent(table)->0,
        ) by {
            assert(init[i] == rows[i]);
        }
        lemma_anchored_whole(init, table, parents);
        assert(rows[rows.len() - 1] == rows.last());
        assert(init.push(rows.last()) == rows);
    }
}

/// Rows whose references are all met do not refer to a row that does not
/// exist.
proof fn lemma_rows_unreferencing<T: Row>(store: &Store, rows: Seq<T>, table: Table, key: int)
    requires
        store.all_linked(rows),
        !store.has(table, key),
    ensures
        forall|i: int| 0 <= i < rows.len() ==> (#[trigger] rows[i]).parent(table) != Some(key),
{
    assert forall|i: int| 0 <= i < rows.len() implies (#[trigger] rows[i]).parent(table) != Some(
        key,
    ) by {
        assert(store.linked(rows[i]));
    }
}

impl Store {
    /// No row of any table refers to the row `key` of `table`.
    pub open spec fn unreferenced(&self, table: Table, key: int) -> bool {
        &&& forall|i: int| 0 <= i < self.user_roles.rows@.len() ==> (#[trigger] self.user_roles.rows@[i]).parent(table) != Some(key)
        &&& forall|i: int| 0 <= i < self.users.rows@.len() ==> (#[trigger] self.users.rows@[i]).parent(table) != Some(key)
        &&& forall|i: int| 0 <= i < self.seeds.rows@.len() ==> (#[trigger] self.seeds.rows@[i]).parent(table) != Some(key)
        &&& forall|i: int| 0 <= i < self.lands.rows@.len() ==> (#[trigger] self.lands.rows@[i]).parent(table) != Some(key)
        &&& forall|i: int| 0 <= i < self.sensors.rows@.len() ==> (#[trigger] self.sensors.rows@[i]).parent(table) != Some(key)
        &&& forall|i: int| 0 <= i < self.sensor_histories.rows@.len() ==> (#[trigger] self.sensor_histories.rows@[i]).parent(table) != Some(key)
        &&& forall|i: int| 0 <= i < self.plants.rows@.len() ==> (#[trigger] self.plants.rows@[i]).parent(table) != Some(key)
        &&& forall|i: int| 0 <= i < self.valves.rows@.len() ==> (#[trigger] self.valves.rows@[i]).parent(table) != Some(key)
        &&& forall|i: int| 0 <= i < self.pumps.rows@.len() ==> (#[trigger] self.pumps.rows@[i]).parent(table) != Some(key)
        &&& forall|i: int| 0 <= i < self.automations.rows@.len() ==> (#[trigger] self.automations.rows@[i]).parent(table) != Some(key)
        &&& forall|i: int| 0 <= i < self.automation_histories.rows@.len() ==> (#[trigger] self.automation_histories.rows@[i]).parent(table) != Some(key)
        &&& forall|i: int| 0 <= i < self.recommendations.rows@.len() ==> (#[trigger] self.recommendations.rows@[i]).parent(table) != Some(key)
        &&& forall|i: int| 0 <= i < self.pest_controls.rows@.len() ==> (#[trigger] self.pest_controls.rows@[i]).parent(table) != Some(key)
        &&& forall|i: int| 0 <= i < self.notifications.rows@.len() ==> (#[trigger] self.notifications.rows@[i]).parent(table) != Some(key)
    }

    /// In a consistent store no row refers to a row that does not exist.
    pub proof fn lemma_absent_is_unreferenced(&self, table: Table, key: int)
        requires
            self.wf(),
            !self.has(table, key),
        ensures
            self.unreferenced(table, key),
    {
        lemma_rows_unreferencing(self, self.user_roles.rows@, table, key);
        lemma_rows_unreferencing(self, self.users.rows@, table, key);
        lemma_rows_unreferencing(self, self.seeds.rows@, table, key);
        lemma_rows_unreferencing(self, self.lands.rows@, table, key);
        lemma_rows_unreferencing(self, self.sensors.rows@, table, key);
        lemma_rows_unreferencing(self, self.sensor_histories.rows@, table, key);
        lemma_rows_unreferencing(self, self.plants.rows@, table, key);
        lemma_rows_unreferencing(self, self.valves.rows@, table, key);
        lemma_rows_unreferencing(self, self.pumps.rows@, table, key);
        lemma_rows_unreferencing(self, self.automations.rows@, table, key);
        lemma_rows_unreferencing(self, self.automation_histories.rows@, table, key);
        lemma_rows_unreferencing(self, self.recommendations.rows@, table, key);
        lemma_rows_unreferencing(self, self.pest_controls.rows@, table, key);
        lemma_rows_unreferencing(self, self.notifications.rows@, table, key);
    }

    /// After a delete the row is gone: its key looks up nothing.
    pub proof fn law_deleted_is_gone(&self, before: &Store, table: Table, id: int)
        requires
            self.deleted(before, table, id),
        ensures
            !self.has(table, id),
    {
        match table {
            Table::UserRole => {
                lemma_removed_is_gone(before.user_roles.rows@, id);
            },
            Table::User => {
                lemma_removed_is_gone(before.users.rows@, id);
            },
            Table::Seed => {
                lemma_removed_is_gone(before.seeds.rows@, id);
            },
            Table::Land => {
                lemma_removed_is_gone(before.lands.rows@, id);
                lemma_anchored_keys(removed(before.lands.rows@, Some(id)), Table::User, before.users_after(table, id), id);
            },
            Table::Sensor => {
                lemma_removed_is_gone(before.sensors.rows@, id);
                lemma_anchored_keys(removed(before.sensors.rows@, Some(id)), Table::Land, before.lands_after(table, id), id);
            },
            Table::SensorHistory => {
                lemma_removed_is_gone(before.sensor_histories.rows@, id);
                lemma_anchored_keys(removed(before.sensor_histories.rows@, Some(id)), Table::Sensor, before.sensors_after(table, id), id);
            },
            Table::Plant => {
                lemma_removed_is_gone(before.plants.rows@, id);
                let kept = removed(before.plants.rows@, Some(id));
                lemma_anchored_keys(kept, Table::Land, before.lands_after(table, id), id);
                lemma_anchored_keys(anchored(kept, Table::Land, before.lands_after(table, id)), Table::Seed, before.seeds_after(table, id), id);
            },
            Table::Valve => {
                lemma_removed_is_gone(before.valves.rows@, id);
                lemma_anchored_keys(removed(before.valves.rows@, Some(id)), Table::Land, before.lands_after(table, id), id);
            },
            Table::Pump => {
                lemma_removed_is_gone(before.pumps.rows@, id);
                lemma_anchored_keys(removed(before.pumps.rows@, Some(id)), Table::Land, before.lands_after(table, id), id);
            },
            Table::Automation => {
                lemma_removed_is_gone(before.automations.rows@, id);
                lemma_anchored_keys(removed(before.automations.rows@, Some(id)), Table::Land, before.lands_after(table, id), id);
            },
            Table::AutomationHistory => {
                lemma_removed_is_gone(before.automation_histories.rows@, id);
                lemma_anchored_keys(removed(before.automation_histories.rows@, Some(id)), Table::Automation, before.automations_after(table, id), id);
            },
            Table::Recommendation => {
                lemma_removed_is_gone(before.recommendations.rows@, id);
                lemma_anchored_keys(removed(before.recommendations.rows@, Some(id)), Table::Seed, before.seeds_after(table, id), id);
            },
            Table::PestControl => {
                lemma_removed_is_gone(before.pest_controls.rows@, id);
                lemma_anchored_keys(removed(before.pest_controls.rows@, Some(id)), Table::Land, before.lands_after(table, id), id);
            },
            Table::Notification => {
                lemma_removed_is_gone(before.notifications.rows@, id);
                lemma_anchored_keys(removed(before.notifications.rows@, Some(id)), Table::User, before.users_after(table, id), id);
            },
        }
    }

    /// A delete cascades: once it has gone through, the store is consistent,
    /// the row is gone, and no row of any table refers to it any more. So the
    /// sensors, plants, valves, pumps, automations and pest-control tasks of a
    /// deleted land plot are gone, the readings of a deleted sensor and the
    /// firings of a deleted automation, and with them whatever referred to
    /// those.
    pub proof fn law_delete_cascades(&self, before: &Store, table: Table, id: int)
        requires
            before.wf(),
            !before.blocked(table, id),
            self.deleted(before, table, id),
        ensures
            self.wf(),
            !self.has(table, id),
            self.unreferenced(table, id),
    {
        self.lemma_deleted_wf(before, table, id);
        self.law_deleted_is_gone(before, table, id);
        self.lemma_absent_is_unreferenced(table, id);
    }

    /// A delete spares what does not hang on the deleted row: when a land plot
    /// is deleted, every other land plot stays, and every sensor that belongs
    /// to another land plot stays.
    pub proof fn law_delete_spares(&self, before: &Store, id: int, land: int, sensor: int)
        requires
            before.wf(),
            self.deleted(before, Table::Land, id),
            land != id,
        ensures
            before.has(Table::Land, land) ==> self.has(Table::Land, land),
            (exists|i: int|
                0 <= i < before.sensors.rows@.len() && (#[trigger] before.sensors.rows@[i]).key()
                    == sensor && before.sensors.rows@[i].land_id == land) ==> self.has(
                Table::Sensor,
                sensor,
            ),
    {
        let users = before.users.rows@;
        let lands = before.lands.rows@;
        let sensors = before.sensors.rows@;
        lemma_removed_none(users);
        lemma_removed_none(sensors);
        let lands0 = removed(lands, Some(id));
        assert(all_anchored(lands0, Table::User, users)) by {
            assert forall|i: int| 0 <= i < lands0.len() && (#[trigger] lands0[i]).parent(
                Table::User,
            ) is Some implies has_key(users, lands0[i].parent(Table::User)->0) by {
                lemma_filter_row(lands, |r: crate::models::land::Model| Some(r.key()) != Some(id), i);
                let j = choose|j: int| 0 <= j < lands.len() && lands[j] == lands0[i];
                assert(before.linked(lands[j]));
                assert(lands[j].parent(Table::User) is Some);
            }
        }
        lemma_anchored_whole(lands0, Table::User, users);
        lemma_filter_has_key(lands, |r: crate::models::land::Model| Some(r.key()) != Some(id), land);
        if before.has(Table::Land, land) {
            let j = choose|j: int| 0 <= j < lands.len() && #[trigger] lands[j].key() == land;
            assert(has_key(lands0, land));
        }
        if exists|i: int|
            0 <= i < sensors.len() && (#[trigger] sensors[i]).key() == sensor && sensors[i].land_id
                == land {
            let i = choose|i: int|
                0 <= i < sensors.len() && (#[trigger] sensors[i]).key() == sensor
                    && sensors[i].land_id == land;
            assert(before.linked(sensors[i]));
            assert(sensors[i].parent(Table::Land) == Some(land));
            assert(before.has(Table::Land, land));
            let j = choose|j: int| 0 <= j < lands.len() && #[trigger] lands[j].key() == land;
            assert(has_key(lands0, land));
            lemma_filter_has_key(
                sensors,
                |r: crate::models::sensor::Model|
                    r.parent(Table::Land) is Some ==> has_key(
                        before.lands_after(Table::Land, id),
                        r.parent(Table::Land)->0,
                    ),
                sensor,
            );
        }
    }
}

} // verus!
