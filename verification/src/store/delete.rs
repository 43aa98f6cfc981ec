//! Deleting a row, with what follows from it. Rows that refer to the deleted
//! row through a cascading reference go with it, and so do the rows that refer
//! to those. While a row would remain that refers to a removed row through a
//! reference that does not cascade, the delete fails and changes nothing.

use vstd::prelude::*;
use crate::db::DbError;
use crate::models::{automation, automation_history, land, notification, pest_control, plant, pump, recommendation, seed, sensor, sensor_history, user, user_role, valve};
use crate::schema::{Row, Table};
use crate::store::rows::{all_anchored, anchored, are_anchored, ascending, has_key, keep_anchored, lemma_filter_ascending, lemma_filter_row, removed, unique_labels, without};
use crate::store::{target, Store};

verus! {

/// Every row of `f` is a row of `s`.
pub open spec fn within<T>(f: Seq<T>, s: Seq<T>) -> bool {
    forall|i: int| 0 <= i < f.len() ==> s.contains(#[trigger] f[i])
}

/// What is kept of a table is in key order, lies within the table, and keeps
/// the table's bounds on keys.
proof fn lemma_kept<T: Row>(s: Seq<T>, p: spec_fn(T) -> bool, next: int)
    requires
        ascending(s),
        forall|i: int| 0 <= i < s.len() ==> 1 <= (#[trigger] s[i]).key() < next,
    ensures
        ascending(s.filter(p)),
        within(s.filter(p), s),
        forall|i: int| 0 <= i < s.filter(p).len() ==> p(#[trigger] s.filter(p)[i]),
        forall|i: int| 0 <= i < s.filter(p).len() ==> 1 <= (#[trigger] s.filter(p)[i]).key() < next,
{
    let f = s.filter(p);
    lemma_filter_ascending(s, p);
    assert forall|i: int| 0 <= i < f.len() implies s.contains(#[trigger] f[i]) && p(f[i]) && 1
        <= f[i].key() < next by {
        lemma_filter_row(s, p, i);
        let j = choose|j: int| 0 <= j < s.len() && s[j] == f[i];
        assert(1 <= s[j].key() < next);
    }
}

/// Rows taken from rows with unique names have unique names.
proof fn lemma_within_unique<T: Row>(f: Seq<T>, s: Seq<T>)
    requires
        within(f, s),
        unique_labels(s),
    ensures
        unique_labels(f),
{
    assert forall|i: int, j: int|
        0 <= i < f.len() && 0 <= j < f.len() && (#[trigger] f[i]).label() == (
        #[trigger] f[j]).label() implies f[i].key() == f[j].key() by {
        assert(s.contains(f[i]) && s.contains(f[j]));
        let a = choose|a: int| 0 <= a < s.len() && s[a] == f[i];
        let b = choose|b: int| 0 <= b < s.len() && s[b] == f[j];
        assert(s[a].label() == s[b].label());
    }
}

/// Rows taken from rows whose reference into a table is met have it met.
proof fn lemma_within_anchored<T: Row, P: Row>(f: Seq<T>, s: Seq<T>, table: Table, parents: Seq<P>)
    requires
        within(f, s),
        all_anchored(s, table, parents),
    ensures
        all_anchored(f, table, parents),
{
    assert forall|i: int| 0 <= i < f.len() && (#[trigger] f[i]).parent(table) is Some implies has_key(
        parents,
        f[i].parent(table)->0,
    ) by {
        assert(s.contains(f[i]));
        let j = choose|j: int| 0 <= j < s.len() && s[j] == f[i];
        assert(s[j].parent(table) is Some ==> has_key(parents, s[j].parent(table)->0));
    }
}

/// What is kept under a parent table is in key order, lies within the rows it
/// was taken from, keeps their bounds on keys and has its reference met.
proof fn lemma_anchored<T: Row, P: Row>(s: Seq<T>, table: Table, parents: Seq<P>, next: int)
    requires
        ascending(s),
        forall|i: int| 0 <= i < s.len() ==> 1 <= (#[trigger] s[i]).key() < next,
    ensures
        ascending(anchored(s, table, parents)),
        within(anchored(s, table, parents), s),
        all_anchored(anchored(s, table, parents), table, parents),
        forall|i: int|
            0 <= i < anchored(s, table, parents).len() ==> 1 <= (#[trigger] anchored(
                s,
                table,
                parents,
            )[i]).key() < next,
{
    lemma_kept(s, |r: T| r.parent(table) is Some ==> has_key(parents, r.parent(table)->0), next);
}

/// What is kept when one key is removed is in key order, lies within the
/// table and keeps its bounds on keys.
proof fn lemma_removed<T: Row>(s: Seq<T>, key: Option<int>, next: int)
    requires
        ascending(s),
        forall|i: int| 0 <= i < s.len() ==> 1 <= (#[trigger] s[i]).key() < next,
    ensures
        ascending(removed(s, key)),
        within(removed(s, key), s),
        forall|i: int| 0 <= i < removed(s, key).len() ==> 1 <= (#[trigger] removed(s, key)[i]).key() < next,
{
    lemma_kept(s, |r: T| Some(r.key()) != key, next);
}

/// Rows that refer to one table only, and whose reference into it is met by
/// rows of the store, have all their references met.
proof fn lemma_anchored_linked<T: Row, P: Row>(store: &Store, rows: Seq<T>, table: Table, parents: Seq<P>)
    requires
        all_anchored(rows, table, parents),
        forall|k: int| has_key(parents, k) ==> store.has(table, k),
        forall|i: int, t: Table|
            0 <= i < rows.len() && t != table ==> (#[trigger] rows[i].parent(t)) is None,
    ensures
        store.all_linked(rows),
{
    assert forall|i: int| 0 <= i < rows.len() implies store.linked(#[trigger] rows[i]) by {
        assert forall|t: Table| (#[trigger] rows[i].parent(t)) is Some implies store.has(
            t,
            rows[i].parent(t)->0,
        ) by {
            assert(t == table);
            assert(has_key(parents, rows[i].parent(table)->0));
        }
    }
}

impl Store {
    /// The roles that a delete leaves.
    pub open spec fn roles_after(&self, table: Table, id: int) -> Seq<user_role::Model> {
        removed(self.user_roles.rows@, target(table, Table::UserRole, id))
    }

    /// The users that a delete leaves.
    pub open spec fn users_after(&self, table: Table, id: int) -> Seq<user::Model> {
        removed(self.users.rows@, target(table, Table::User, id))
    }

    /// The seeds that a delete leaves.
    pub open spec fn seeds_after(&self, table: Table, id: int) -> Seq<seed::Model> {
        removed(self.seeds.rows@, target(table, Table::Seed, id))
    }

    /// The land plots that a delete leaves: those whose user is left.
    pub open spec fn lands_after(&self, table: Table, id: int) -> Seq<land::Model> {
        anchored(
            removed(self.lands.rows@, target(table, Table::Land, id)),
            Table::User,
            self.users_after(table, id),
        )
    }

    /// The sensors that a delete leaves: those whose land plot is left.
    pub open spec fn sensors_after(&self, table: Table, id: int) -> Seq<sensor::Model> {
        anchored(
            removed(self.sensors.rows@, target(table, Table::Sensor, id)),
            Table::Land,
            self.lands_after(table, id),
        )
    }

    /// The readings that a delete leaves: those whose sensor is left.
    pub open spec fn sensor_histories_after(&self, table: Table, id: int) -> Seq<
        sensor_history::Model,
    > {
        anchored(
            removed(self.sensor_histories.rows@, target(table, Table::SensorHistory, id)),
            Table::Sensor,
            self.sensors_after(table, id),
        )
    }

    /// The plants that a delete leaves: those whose land plot and seed are left.
    pub open spec fn plants_after(&self, table: Table, id: int) -> Seq<plant::Model> {
        anchored(
            anchored(
                removed(self.plants.rows@, target(table, Table::Plant, id)),
                Table::Land,
                self.lands_after(table, id),
            ),
            Table::Seed,
            self.seeds_after(table, id),
        )
    }

    /// The valves that a delete leaves: those whose land plot is left.
    pub open spec fn valves_after(&self, table: Table, id: int) -> Seq<valve::Model> {
        anchored(
            removed(self.valves.rows@, target(table, Table::Valve, id)),
            Table::Land,
            self.lands_after(table, id),
        )
    }

    /// The pumps that a delete leaves: those whose land plot is left.
    pub open spec fn pumps_after(&self, table: Table, id: int) -> Seq<pump::Model> {
        anchored(
            removed(self.pumps.rows@, target(table, Table::Pump, id)),
            Table::Land,
            self.lands_after(table, id),
        )
    }

    /// The automations that a delete leaves: those whose land plot is left.
    pub open spec fn automations_after(&self, table: Table, id: int) -> Seq<automation::Model> {
        anchored(
            removed(self.automations.rows@, target(table, Table::Automation, id)),
            Table::Land,
            self.lands_after(table, id),
        )
    }

    /// The firings that a delete leaves: those whose automation is left.
    pub open spec fn automation_histories_after(&self, table: Table, id: int) -> Seq<
        automation_history::Model,
    > {
        anchored(
            removed(self.automation_histories.rows@, target(table, Table::AutomationHistory, id)),
            Table::Automation,
            self.automations_after(table, id),
        )
    }

    /// The recommendations that a delete leaves: those whose seed is left.
    pub open spec fn recommendations_after(&self, table: Table, id: int) -> Seq<
        recommendation::Model,
    > {
        anchored(
            removed(self.recommendations.rows@, target(table, Table::Recommendation, id)),
            Table::Seed,
            self.seeds_after(table, id),
        )
    }

    /// The pest-control tasks that a delete leaves: those whose land plot is left.
    pub open spec fn pest_controls_after(&self, table: Table, id: int) -> Seq<pest_control::Model> {
        anchored(
            removed(self.pest_controls.rows@, target(table, Table::PestControl, id)),
            Table::Land,
            self.lands_after(table, id),
        )
    }

    /// The notifications that a delete leaves: those whose user is left.
    pub open spec fn notifications_after(&self, table: Table, id: int) -> Seq<notification::Model> {
        anchored(
            removed(self.notifications.rows@, target(table, Table::Notification, id)),
            Table::User,
            self.users_after(table, id),
        )
    }

    /// Whether a delete is refused: among the rows that it would leave, a user
    /// refers to a role, or an automation to a sensor, a pump or a valve, that
    /// it would remove.
    pub open spec fn blocked(&self, table: Table, id: int) -> bool {
        !({
            &&& all_anchored(
                self.users_after(table, id),
                Table::UserRole,
                self.roles_after(table, id),
            )
            &&& all_anchored(
                self.automations_after(table, id),
                Table::Sensor,
                self.sensors_after(table, id),
            )
            &&& all_anchored(
                self.automations_after(table, id),
                Table::Pump,
                self.pumps_after(table, id),
            )
            &&& all_anchored(
                self.automations_after(table, id),
                Table::Valve,
                self.valves_after(table, id),
            )
        })
    }

    /// Whether this store is what the delete of the row `id` of `table` leaves
    /// of the store `before`. The counters stay: a key is never handed out
    /// twice.
    pub open spec fn deleted(&self, before: &Store, table: Table, id: int) -> bool {
        &&& self.user_roles.rows@ == before.roles_after(table, id)
        &&& self.users.rows@ == before.users_after(table, id)
        &&& self.seeds.rows@ == before.seeds_after(table, id)
        &&& self.lands.rows@ == before.lands_after(table, id)
        &&& self.sensors.rows@ == before.sensors_after(table, id)
        &&& self.sensor_histories.rows@ == before.sensor_histories_after(table, id)
        &&& self.plants.rows@ == before.plants_after(table, id)
        &&& self.valves.rows@ == before.valves_after(table, id)
        &&& self.pumps.rows@ == before.pumps_after(table, id)
        &&& self.automations.rows@ == before.automations_after(table, id)
        &&& self.automation_histories.rows@ == before.automation_histories_after(table, id)
        &&& self.recommendations.rows@ == before.recommendations_after(table, id)
        &&& self.pest_controls.rows@ == before.pest_controls_after(table, id)
        &&& self.notifications.rows@ == before.notifications_after(table, id)
        &&& self.user_roles.next == before.user_roles.next
        &&& self.users.next == before.users.next
        &&& self.seeds.next == before.seeds.next
        &&& self.lands.next == before.lands.next
        &&& self.sensors.next == before.sensors.next
        &&& self.sensor_histories.next == before.sensor_histories.next
        &&& self.plants.next == before.plants.next
        &&& self.valves.next == before.valves.next
        &&& self.pumps.next == before.pumps.next
        &&& self.automations.next == before.automations.next
        &&& self.automation_histories.next == before.automation_histories.next
        &&& self.recommendations.next == before.recommendations.next
        &&& self.pest_controls.next == before.pest_controls.next
        &&& self.notifications.next == before.notifications.next
    }

    /// What a delete that is not refused leaves is consistent.
    pub proof fn lemma_deleted_wf(&self, before: &Store, table: Table, id: int)
        requires
            before.wf(),
            self.deleted(before, table, id),
            !before.blocked(table, id),
        ensures
            self.wf(),
    {
        let roles = before.roles_after(table, id);
        let users = before.users_after(table, id);
        let seeds = before.seeds_after(table, id);
        let lands = before.lands_after(table, id);
        let sensors = before.sensors_after(table, id);
        let pumps = before.pumps_after(table, id);
        let valves = before.valves_after(table, id);
        let automations = before.automations_after(table, id);
        lemma_removed(before.user_roles.rows@, target(table, Table::UserRole, id), before.user_roles.next as int);
        lemma_removed(before.users.rows@, target(table, Table::User, id), before.users.next as int);
        lemma_removed(before.seeds.rows@, target(table, Table::Seed, id), before.seeds.next as int);
        lemma_within_unique(roles, before.user_roles.rows@);
        lemma_within_unique(users, before.users.rows@);

        let lands0 = removed(before.lands.rows@, target(table, Table::Land, id));
        lemma_removed(before.lands.rows@, target(table, Table::Land, id), before.lands.next as int);
        lemma_anchored(lands0, Table::User, users, before.lands.next as int);

        let sensors0 = removed(before.sensors.rows@, target(table, Table::Sensor, id));
        lemma_removed(before.sensors.rows@, target(table, Table::Sensor, id), before.sensors.next as int);
        lemma_anchored(sensors0, Table::Land, lands, before.sensors.next as int);

        let sh0 = removed(before.sensor_histories.rows@, target(table, Table::SensorHistory, id));
        lemma_removed(before.sensor_histories.rows@, target(table, Table::SensorHistory, id), before.sensor_histories.next as int);
        lemma_anchored(sh0, Table::Sensor, sensors, before.sensor_histories.next as int);

        let plants0 = removed(before.plants.rows@, target(table, Table::Plant, id));
        lemma_removed(before.plants.rows@, target(table, Table::Plant, id), before.plants.next as int);
        lemma_anchored(plants0, Table::Land, lands, before.plants.next as int);
        let plants1 = anchored(plants0, Table::Land, lands);
        lemma_anchored(plants1, Table::Seed, seeds, before.plants.next as int);
        lemma_within_anchored(self.plants.rows@, plants1, Table::Land, lands);

        let valves0 = removed(before.valves.rows@, target(table, Table::Valve, id));
        lemma_removed(before.valves.rows@, target(table, Table::Valve, id), before.valves.next as int);
        lemma_anchored(valves0, Table::Land, lands, before.valves.next as int);

        let pumps0 = removed(before.pumps.rows@, target(table, Table::Pump, id));
        lemma_removed(before.pumps.rows@, target(table, Table::Pump, id), before.pumps.next as int);
        lemma_anchored(pumps0, Table::Land, lands, before.pumps.next as int);

        let autos0 = removed(before.automations.rows@, target(table, Table::Automation, id));
        lemma_removed(before.automations.rows@, target(table, Table::Automation, id), before.automations.next as int);
        lemma_anchored(autos0, Table::Land, lands, before.automations.next as int);

        let ah0 = removed(before.automation_histories.rows@, target(table, Table::AutomationHistory, id));
        lemma_removed(before.automation_histories.rows@, target(table, Table::AutomationHistory, id), before.automation_histories.next as int);
        lemma_anchored(ah0, Table::Automation, automations, before.automation_histories.next as int);

        let recs0 = removed(before.recommendations.rows@, target(table, Table::Recommendation, id));
        lemma_removed(before.recommendations.rows@, target(table, Table::Recommendation, id), before.recommendations.next as int);
        lemma_anchored(recs0, Table::Seed, seeds, before.recommendations.next as int);

        let pests0 = removed(before.pest_controls.rows@, target(table, Table::PestControl, id));
        lemma_removed(before.pest_controls.rows@, target(table, Table::PestControl, id), before.pest_controls.next as int);
        lemma_anchored(pests0, Table::Land, lands, before.pest_controls.next as int);

        let notes0 = removed(before.notifications.rows@, target(table, Table::Notification, id));
        lemma_removed(before.notifications.rows@, target(table, Table::Notification, id), before.notifications.next as int);
        lemma_anchored(notes0, Table::User, users, before.notifications.next as int);

        assert(self.keyed());
        assert(self.all_linked(self.user_roles.rows@));
        assert(self.all_linked(self.seeds.rows@));
        lemma_anchored_linked(self, self.users.rows@, Table::UserRole, roles);
        lemma_anchored_linked(self, self.lands.rows@, Table::User, users);
        lemma_anchored_linked(self, self.sensors.rows@, Table::Land, lands);
        lemma_anchored_linked(self, self.sensor_histories.rows@, Table::Sensor, sensors);
        assert(self.all_linked(self.plants.rows@)) by {
            let s = self.plants.rows@;
            assert forall|i: int| 0 <= i < s.len() implies self.linked(#[trigger] s[i]) by {
                assert(s[i].parent(Table::Land) is Some ==> has_key(lands, s[i].parent(Table::Land)->0));
                assert(s[i].parent(Table::Seed) is Some ==> has_key(seeds, s[i].parent(Table::Seed)->0));
            }
        }
        lemma_anchored_linked(self, self.valves.rows@, Table::Land, lands);
        lemma_anchored_linked(self, self.pumps.rows@, Table::Land, lands);
        assert(self.all_linked(self.automations.rows@)) by {
            let s = self.automations.rows@;
            assert forall|i: int| 0 <= i < s.len() implies self.linked(#[trigger] s[i]) by {
                assert(s[i].parent(Table::Land) is Some ==> has_key(lands, s[i].parent(Table::Land)->0));
                assert(s[i].parent(Table::Sensor) is Some ==> has_key(sensors, s[i].parent(Table::Sensor)->0));
                assert(s[i].parent(Table::Pump) is Some ==> has_key(pumps, s[i].parent(Table::Pump)->0));
                assert(s[i].parent(Table::Valve) is Some ==> has_key(valves, s[i].parent(Table::Valve)->0));
            }
        }
        lemma_anchored_linked(self, self.automation_histories.rows@, Table::Automation, automations);
        lemma_anchored_linked(self, self.recommendations.rows@, Table::Seed, seeds);
        lemma_anchored_linked(self, self.pest_controls.rows@, Table::Land, lands);
        lemma_anchored_linked(self, self.notifications.rows@, Table::User, users);
    }

    /// Deletes the row `id` of `table` together with the rows that follow it,
    /// and returns the number of rows removed from `table` itself: 1, or 0
    /// where there is no such row.
    pub fn delete(&mut self, table: Table, id: i32) -> (r: Result<u64, DbError>)
        requires
            old(self).wf(),
        ensures
            final(self).wf(),
            match r {
                Ok(n) => if old(self).has(table, id as int) {
                    n == 1 && !old(self).blocked(table, id as int) && final(self).deleted(
                        old(self),
                        table,
                        id as int,
                    )
                } else {
                    n == 0 && final(self).same(old(self))
                },
                Err(_) => old(self).has(table, id as int) && old(self).blocked(table, id as int)
                    && final(self).same(old(self)),
            },
    {
        if !self.contains(table, id) {
            return Ok(0);
        }
        let roles = without(&self.user_roles.rows, pick(table, Table::UserRole, id));
        let users = without(&self.users.rows, pick(table, Table::User, id));
        let seeds = without(&self.seeds.rows, pick(table, Table::Seed, id));
        let lands = keep_anchored(
            without(&self.lands.rows, pick(table, Table::Land, id)),
            Table::User,
            &users,
        );
        let sensors = keep_anchored(
            without(&self.sensors.rows, pick(table, Table::Sensor, id)),
            Table::Land,
            &lands,
        );
        let sensor_histories = keep_anchored(
            without(&self.sensor_histories.rows, pick(table, Table::SensorHistory, id)),
            Table::Sensor,
            &sensors,
        );
        let plants = keep_anchored(
            keep_anchored(
                without(&self.plants.rows, pick(table, Table::Plant, id)),
                Table::Land,
                &lands,
            ),
            Table::Seed,
            &seeds,
        );
        let valves = keep_anchored(
            without(&self.valves.rows, pick(table, Table::Valve, id)),
            Table::Land,
            &lands,
        );
        let pumps = keep_anchored(
            without(&self.pumps.rows, pick(table, Table::Pump, id)),
            Table::Land,
            &lands,
        );
        let automations = keep_anchored(
            without(&self.automations.rows, pick(table, Table::Automation, id)),
            Table::Land,
            &lands,
        );
        let automation_histories = keep_anchored(
            without(&self.automation_histories.rows, pick(table, Table::AutomationHistory, id)),
            Table::Automation,
            &automations,
        );
        let recommendations = keep_anchored(
            without(&self.recommendations.rows, pick(table, Table::Recommendation, id)),
            Table::Seed,
            &seeds,
        );
        let pest_controls = keep_anchored(
            without(&self.pest_controls.rows, pick(table, Table::PestControl, id)),
            Table::Land,
            &lands,
        );
        let notifications = keep_anchored(
            without(&self.notifications.rows, pick(table, Table::Notification, id)),
            Table::User,
            &users,
        );
        let free = are_anchored(&users, Table::UserRole, &roles) && are_anchored(
            &automations,
            Table::Sensor,
            &sensors,
        ) && are_anchored(&automations, Table::Pump, &pumps) && are_anchored(
            &automations,
            Table::Valve,
            &valves,
        );
        if !free {
            return Err(DbError::new("delete violates a foreign key constraint"));
        }
        let ghost before = *self;
        self.user_roles.rows = roles;
        self.users.rows = users;
        self.seeds.rows = seeds;
        self.lands.rows = lands;
        self.sensors.rows = sensors;
        self.sensor_histories.rows = sensor_histories;
        self.plants.rows = plants;
        self.valves.rows = valves;
        self.pumps.rows = pumps;
        self.automations.rows = automations;
        self.automation_histories.rows = automation_histories;
        self.recommendations.rows = recommendations;
        self.pest_controls.rows = pest_controls;
        self.notifications.rows = notifications;
        proof {
            self.lemma_deleted_wf(&before, table, id as int);
        }
        Ok(1)
    }
}

/// The key to remove from the table `of` when the row `id` of `table` is
/// deleted.
fn pick(table: Table, of: Table, id: i32) -> (key: Option<i32>)
    ensures
        match key {
            Some(k) => target(table, of, id as int) == Some(k as int),
            None => target(table, of, id as int) is None,
        },
{
    if table == of {
        Some(id)
    } else {
        None
    }
}

} // verus!
