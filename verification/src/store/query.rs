//! Lookups and inserts that name their table by a value.

use vstd::prelude::*;
use crate::db::DbError;
use crate::handlers::Parent;
use crate::models::Record;
use crate::schema::{Row, Table};
use crate::seeder::Lookup;
use crate::store::rows::{first_fit, lemma_first_fit_push, named, text, under};
use crate::store::Store;

verus! {

impl Store {
    /// The key of the first row of `table`, in the order of insertion, that
    /// goes by the name and refers to the parent, where they are given.
    pub open spec fn first_key(&self, table: Table, name: Option<Seq<char>>, parent: Option<Parent>) -> Option<
        int,
    > {
        match table {
            Table::UserRole => first_fit(self.user_roles.rows@, name, parent),
            Table::User => first_fit(self.users.rows@, name, parent),
            Table::Seed => first_fit(self.seeds.rows@, name, parent),
            Table::Land => first_fit(self.lands.rows@, name, parent),
            Table::Sensor => first_fit(self.sensors.rows@, name, parent),
            Table::SensorHistory => first_fit(self.sensor_histories.rows@, name, parent),
            Table::Plant => first_fit(self.plants.rows@, name, parent),
            Table::Valve => first_fit(self.valves.rows@, name, parent),
            Table::Pump => first_fit(self.pumps.rows@, name, parent),
            Table::Automation => first_fit(self.automations.rows@, name, parent),
            Table::AutomationHistory => first_fit(self.automation_histories.rows@, name, parent),
            Table::Recommendation => first_fit(self.recommendations.rows@, name, parent),
            Table::PestControl => first_fit(self.pest_controls.rows@, name, parent),
            Table::Notification => first_fit(self.notifications.rows@, name, parent),
        }
    }

    /// Looks up the first row that a lookup asks for and returns its key.
    pub fn find_first(&self, lookup: &Lookup) -> (r: Result<Option<i32>, DbError>)
        ensures
            match r {
                Ok(Some(key)) => self.first_key(lookup.table, text(lookup.name), lookup.parent) == Some(
                    key as int,
                ),
                Ok(None) => self.first_key(lookup.table, text(lookup.name), lookup.parent) is None,
                Err(_) => false,
            },
    {
        Ok(
            match lookup.table {
                Table::UserRole => self.user_roles.first(&lookup.name, lookup.parent),
                Table::User => self.users.first(&lookup.name, lookup.parent),
                Table::Seed => self.seeds.first(&lookup.name, lookup.parent),
                Table::Land => self.lands.first(&lookup.name, lookup.parent),
                Table::Sensor => self.sensors.first(&lookup.name, lookup.parent),
                Table::SensorHistory => self.sensor_histories.first(&lookup.name, lookup.parent),
                Table::Plant => self.plants.first(&lookup.name, lookup.parent),
                Table::Valve => self.valves.first(&lookup.name, lookup.parent),
                Table::Pump => self.pumps.first(&lookup.name, lookup.parent),
                Table::Automation => self.automations.first(&lookup.name, lookup.parent),
                Table::AutomationHistory => self.automation_histories.first(&lookup.name, lookup.parent),
                Table::Recommendation => self.recommendations.first(&lookup.name, lookup.parent),
                Table::PestControl => self.pest_controls.first(&lookup.name, lookup.parent),
                Table::Notification => self.notifications.first(&lookup.name, lookup.parent),
            },
        )
    }

    /// Whether the store takes a new row.
    pub open spec fn admits(&self, record: Record) -> bool {
        match record {
            Record::UserRole(draft) => self.admits_user_role(draft),
            Record::User(draft) => self.admits_user(draft),
            Record::Seed(draft) => self.admits_seed(draft),
            Record::Land(draft) => self.admits_land(draft),
            Record::Sensor(draft) => self.admits_sensor(draft),
            Record::SensorHistory(draft) => self.admits_sensor_history(draft),
            Record::Plant(draft) => self.admits_plant(draft),
            Record::Valve(draft) => self.admits_valve(draft),
            Record::Pump(draft) => self.admits_pump(draft),
            Record::Automation(draft) => self.admits_automation(draft),
            Record::AutomationHistory(draft) => self.admits_automation_history(draft),
            Record::Recommendation(draft) => self.admits_recommendation(draft),
            Record::PestControl(draft) => self.admits_pest_control(draft),
            Record::Notification(draft) => self.admits_notification(draft),
        }
    }

    /// Whether this store is the store `before` with the row `record` appended
    /// to its table under the key `key`, the table's next, and nothing else
    /// changed.
    pub open spec fn gained(&self, before: &Store, record: Record, key: int) -> bool {
        match record {
            Record::UserRole(draft) => {
                &&& key == before.user_roles.next
                &&& self.user_roles.rows@ == before.user_roles.rows@.push(draft.keyed(key))
                &&& self.user_roles.next == before.user_roles.next + 1
                &&& self.same_but(before, Table::UserRole)
            },
            Record::User(draft) => {
                &&& key == before.users.next
                &&& self.users.rows@ == before.users.rows@.push(draft.keyed(key))
                &&& self.users.next == before.users.next + 1
                &&& self.same_but(before, Table::User)
            },
            Record::Seed(draft) => {
                &&& key == before.seeds.next
                &&& self.seeds.rows@ == before.seeds.rows@.push(draft.keyed(key))
                &&& self.seeds.next == before.seeds.next + 1
                &&& self.same_but(before, Table::Seed)
            },
            Record::Land(draft) => {
                &&& key == before.lands.next
                &&& self.lands.rows@ == before.lands.rows@.push(draft.keyed(key))
                &&& self.lands.next == before.lands.next + 1
                &&& self.same_but(before, Table::Land)
            },
            Record::Sensor(draft) => {
                &&& key == before.sensors.next
                &&& self.sensors.rows@ == before.sensors.rows@.push(draft.keyed(key))
                &&& self.sensors.next == before.sensors.next + 1
                &&& self.same_but(before, Table::Sensor)
            },
            Record::SensorHistory(draft) => {
                &&& key == before.sensor_histories.next
                &&& self.sensor_histories.rows@ == before.sensor_histories.rows@.push(draft.keyed(key))
                &&& self.sensor_histories.next == before.sensor_histories.next + 1
                &&& self.same_but(before, Table::SensorHistory)
            },
            Record::Plant(draft) => {
                &&& key == before.plants.next
                &&& self.plants.rows@ == before.plants.rows@.push(draft.keyed(key))
                &&& self.plants.next == before.plants.next + 1
                &&& self.same_but(before, Table::Plant)
            },
            Record::Valve(draft) => {
                &&& key == before.valves.next
                &&& self.valves.rows@ == before.valves.rows@.push(draft.keyed(key))
                &&& self.valves.next == before.valves.next + 1
                &&& self.same_but(before, Table::Valve)
            },
            Record::Pump(draft) => {
                &&& key == before.pumps.next
                &&& self.pumps.rows@ == before.pumps.rows@.push(draft.keyed(key))
                &&& self.pumps.next == before.pumps.next + 1
                &&& self.same_but(before, Table::Pump)
            },
            Record::Automation(draft) => {
                &&& key == before.automations.next
                &&& self.automations.rows@ == before.automations.rows@.push(draft.keyed(key))
                &&& self.automations.next == before.automations.next + 1
                &&& self.same_but(before, Table::Automation)
            },
            Record::AutomationHistory(draft) => {
                &&& key == before.automation_histories.next
                &&& self.automation_histories.rows@ == before.automation_histories.rows@.push(draft.keyed(key))
                &&& self.automation_histories.next == before.automation_histories.next + 1
                &&& self.same_but(before, Table::AutomationHistory)
            },
            Record::Recommendation(draft) => {
                &&& key == before.recommendations.next
                &&& self.recommendations.rows@ == before.recommendations.rows@.push(draft.keyed(key))
                &&& self.recommendations.next == before.recommendations.next + 1
                &&& self.same_but(before, Table::Recommendation)
            },
            Record::PestControl(draft) => {
                &&& key == before.pest_controls.next
                &&& self.pest_controls.rows@ == before.pest_controls.rows@.push(draft.keyed(key))
                &&& self.pest_controls.next == before.pest_controls.next + 1
                &&& self.same_but(before, Table::PestControl)
            },
            Record::Notification(draft) => {
                &&& key == before.notifications.next
                &&& self.notifications.rows@ == before.notifications.rows@.push(draft.keyed(key))
                &&& self.notifications.next == before.notifications.next + 1
                &&& self.same_but(before, Table::Notification)
            },
        }
    }

    /// Inserts a row into its table under the table's next key and returns the
    /// key.
    pub fn insert(&mut self, record: Record) -> (r: Result<i32, DbError>)
        requires
            old(self).wf(),
        ensures
            final(self).wf(),
            match r {
                Ok(key) => old(self).admits(record) && final(self).gained(old(self), record, key as int),
                Err(_) => !old(self).admits(record) && final(self).same(old(self)),
            },
    {
        match record {
            Record::UserRole(draft) => match self.insert_user_role(draft) {
                Ok(row) => Ok(row.id),
                Err(e) => Err(e),
            },
            Record::User(draft) => match self.insert_user(draft) {
                Ok(row) => Ok(row.id),
                Err(e) => Err(e),
            },
            Record::Seed(draft) => match self.insert_seed(draft) {
                Ok(row) => Ok(row.id),
                Err(e) => Err(e),
            },
            Record::Land(draft) => match self.insert_land(draft) {
                Ok(row) => Ok(row.id),
                Err(e) => Err(e),
            },
            Record::Sensor(draft) => match self.insert_sensor(draft) {
                Ok(row) => Ok(row.id),
                Err(e) => Err(e),
            },
            Record::SensorHistory(draft) => match self.insert_sensor_history(draft) {
                Ok(row) => Ok(row.id),
                Err(e) => Err(e),
            },
            Record::Plant(draft) => match self.insert_plant(draft) {
                Ok(row) => Ok(row.id),
                Err(e) => Err(e),
            },
            Record::Valve(draft) => match self.insert_valve(draft) {
                Ok(row) => Ok(row.id),
                Err(e) => Err(e),
            },
            Record::Pump(draft) => match self.insert_pump(draft) {
                Ok(row) => Ok(row.id),
                Err(e) => Err(e),
            },
            Record::Automation(draft) => match self.insert_automation(draft) {
                Ok(row) => Ok(row.id),
                Err(e) => Err(e),
            },
            Record::AutomationHistory(draft) => match self.insert_automation_history(draft) {
                Ok(row) => Ok(row.id),
                Err(e) => Err(e),
            },
            Record::Recommendation(draft) => match self.insert_recommendation(draft) {
                Ok(row) => Ok(row.id),
                Err(e) => Err(e),
            },
            Record::PestControl(draft) => match self.insert_pest_control(draft) {
                Ok(row) => Ok(row.id),
                Err(e) => Err(e),
            },
            Record::Notification(draft) => match self.insert_notification(draft) {
                Ok(row) => Ok(row.id),
                Err(e) => Err(e),
            },
        }
    }

    /// Once a row has been appended, a lookup that found nothing before and
    /// that the row meets finds the row.
    pub proof fn lemma_gained_first(
        &self,
        before: &Store,
        record: Record,
        key: int,
        name: Option<Seq<char>>,
        parent: Option<Parent>,
    )
        requires
            self.gained(before, record, key),
            i32::MIN <= key <= i32::MAX,
            record.fits(name, parent),
            before.first_key(record.table_spec(), name, parent) is None,
        ensures
            self.first_key(record.table_spec(), name, parent) == Some(key),
    {
        match record {
            Record::UserRole(draft) => {
                draft.lemma_keyed(key);
                lemma_first_fit_push(before.user_roles.rows@, draft.keyed(key), name, parent);
            },
            Record::User(draft) => {
                draft.lemma_keyed(key);
                lemma_first_fit_push(before.users.rows@, draft.keyed(key), name, parent);
            },
            Record::Seed(draft) => {
                draft.lemma_keyed(key);
                lemma_first_fit_push(before.seeds.rows@, draft.keyed(key), name, parent);
            },
            Record::Land(draft) => {
                draft.lemma_keyed(key);
                lemma_first_fit_push(before.lands.rows@, draft.keyed(key), name, parent);
            },
            Record::Sensor(draft) => {
                draft.lemma_keyed(key);
                lemma_first_fit_push(before.sensors.rows@, draft.keyed(key), name, parent);
            },
            Record::SensorHistory(draft) => {
                draft.lemma_keyed(key);
                lemma_first_fit_push(before.sensor_histories.rows@, draft.keyed(key), name, parent);
            },
            Record::Plant(draft) => {
                draft.lemma_keyed(key);
                lemma_first_fit_push(before.plants.rows@, draft.keyed(key), name, parent);
            },
            Record::Valve(draft) => {
                draft.lemma_keyed(key);
                lemma_first_fit_push(before.valves.rows@, draft.keyed(key), name, parent);
            },
            Record::Pump(draft) => {
                draft.lemma_keyed(key);
                lemma_first_fit_push(before.pumps.rows@, draft.keyed(key), name, parent);
            },
            Record::Automation(draft) => {
                draft.lemma_keyed(key);
                lemma_first_fit_push(before.automations.rows@, draft.keyed(key), name, parent);
            },
            Record::AutomationHistory(draft) => {
                draft.lemma_keyed(key);
                lemma_first_fit_push(before.automation_histories.rows@, draft.keyed(key), name, parent);
            },
            Record::Recommendation(draft) => {
                draft.lemma_keyed(key);
                lemma_first_fit_push(before.recommendations.rows@, draft.keyed(key), name, parent);
            },
            Record::PestControl(draft) => {
                draft.lemma_keyed(key);
                lemma_first_fit_push(before.pest_controls.rows@, draft.keyed(key), name, parent);
            },
            Record::Notification(draft) => {
                draft.lemma_keyed(key);
                lemma_first_fit_push(before.notifications.rows@, draft.keyed(key), name, parent);
            },
        }
    }

    /// Appending a row does not change what a lookup finds that found a row
    /// before.
    pub proof fn lemma_gained_stable(
        &self,
        before: &Store,
        record: Record,
        key: int,
        table: Table,
        name: Option<Seq<char>>,
        parent: Option<Parent>,
    )
        requires
            self.gained(before, record, key),
            before.first_key(table, name, parent) is Some,
        ensures
            self.first_key(table, name, parent) == before.first_key(table, name, parent),
    {
        match record {
            Record::UserRole(draft) => {
                lemma_first_fit_push(before.user_roles.rows@, draft.keyed(key), name, parent);
            },
            Record::User(draft) => {
                lemma_first_fit_push(before.users.rows@, draft.keyed(key), name, parent);
            },
            Record::Seed(draft) => {
                lemma_first_fit_push(before.seeds.rows@, draft.keyed(key), name, parent);
            },
            Record::Land(draft) => {
                lemma_first_fit_push(before.lands.rows@, draft.keyed(key), name, parent);
            },
            Record::Sensor(draft) => {
                lemma_first_fit_push(before.sensors.rows@, draft.keyed(key), name, parent);
            },
            Record::SensorHistory(draft) => {
                lemma_first_fit_push(before.sensor_histories.rows@, draft.keyed(key), name, parent);
            },
            Record::Plant(draft) => {
                lemma_first_fit_push(before.plants.rows@, draft.keyed(key), name, parent);
            },
            Record::Valve(draft) => {
                lemma_first_fit_push(before.valves.rows@, draft.keyed(key), name, parent);
            },
            Record::Pump(draft) => {
                lemma_first_fit_push(before.pumps.rows@, draft.keyed(key), name, parent);
            },
            Record::Automation(draft) => {
                lemma_first_fit_push(before.automations.rows@, draft.keyed(key), name, parent);
            },
            Record::AutomationHistory(draft) => {
                lemma_first_fit_push(before.automation_histories.rows@, draft.keyed(key), name, parent);
            },
            Record::Recommendation(draft) => {
                lemma_first_fit_push(before.recommendations.rows@, draft.keyed(key), name, parent);
            },
            Record::PestControl(draft) => {
                lemma_first_fit_push(before.pest_controls.rows@, draft.keyed(key), name, parent);
            },
            Record::Notification(draft) => {
                lemma_first_fit_push(before.notifications.rows@, draft.keyed(key), name, parent);
            },
        }
    }
}

impl Record {
    /// The row goes by the name and refers to the parent, where they are given.
    pub open spec fn fits(self, name: Option<Seq<char>>, parent: Option<Parent>) -> bool {
        match self {
            Record::UserRole(row) => named(row, name) && under(row, parent),
            Record::User(row) => named(row, name) && under(row, parent),
            Record::Seed(row) => named(row, name) && under(row, parent),
            Record::Land(row) => named(row, name) && under(row, parent),
            Record::Sensor(row) => named(row, name) && under(row, parent),
            Record::SensorHistory(row) => named(row, name) && under(row, parent),
            Record::Plant(row) => named(row, name) && under(row, parent),
            Record::Valve(row) => named(row, name) && under(row, parent),
            Record::Pump(row) => named(row, name) && under(row, parent),
            Record::Automation(row) => named(row, name) && under(row, parent),
            Record::AutomationHistory(row) => named(row, name) && under(row, parent),
            Record::Recommendation(row) => named(row, name) && under(row, parent),
            Record::PestControl(row) => named(row, name) && under(row, parent),
            Record::Notification(row) => named(row, name) && under(row, parent),
        }
    }
}

} // verus!
