//! An in-memory store that keeps the schema's consistency rules: keys are
//! handed out in ascending order, every reference names a row that exists,
//! user names and role names are unique, and a delete takes with it the rows
//! that the schema lets follow and fails while a row remains that it does not.

use vstd::prelude::*;
use crate::models::{automation, automation_history, land, notification, pest_control, plant, pump, recommendation, seed, sensor, sensor_history, user, user_role, valve};
use crate::schema::{Row, Table};
use crate::store::rows::{has_key, unique_labels, Rows};

pub mod rows;
pub mod write;
pub mod delete;
pub mod query;
pub mod laws;

verus! {

/// All tables of the schema.
#[derive(Debug, PartialEq, Eq)]
pub struct Store {
    pub user_roles: Rows<user_role::Model>,
    pub users: Rows<user::Model>,
    pub seeds: Rows<seed::Model>,
    pub lands: Rows<land::Model>,
    pub sensors: Rows<sensor::Model>,
    pub sensor_histories: Rows<sensor_history::Model>,
    pub plants: Rows<plant::Model>,
    pub valves: Rows<valve::Model>,
    pub pumps: Rows<pump::Model>,
    pub automations: Rows<automation::Model>,
    pub automation_histories: Rows<automation_history::Model>,
    pub recommendations: Rows<recommendation::Model>,
    pub pest_controls: Rows<pest_control::Model>,
    pub notifications: Rows<notification::Model>,
}

/// The key to remove from the table `of` when the row `id` of `table` is
/// deleted: `id` where the two are the same table, none otherwise.
pub open spec fn target(table: Table, of: Table, id: int) -> Option<int> {
    if table == of {
        Some(id)
    } else {
        None
    }
}

impl Store {
    /// The table `table` holds a row with the key `key`.
    pub open spec fn has(&self, table: Table, key: int) -> bool {
        match table {
            Table::UserRole => has_key(self.user_roles.rows@, key),
            Table::User => has_key(self.users.rows@, key),
            Table::Seed => has_key(self.seeds.rows@, key),
            Table::Land => has_key(self.lands.rows@, key),
            Table::Sensor => has_key(self.sensors.rows@, key),
            Table::SensorHistory => has_key(self.sensor_histories.rows@, key),
            Table::Plant => has_key(self.plants.rows@, key),
            Table::Valve => has_key(self.valves.rows@, key),
            Table::Pump => has_key(self.pumps.rows@, key),
            Table::Automation => has_key(self.automations.rows@, key),
            Table::AutomationHistory => has_key(self.automation_histories.rows@, key),
            Table::Recommendation => has_key(self.recommendations.rows@, key),
            Table::PestControl => has_key(self.pest_controls.rows@, key),
            Table::Notification => has_key(self.notifications.rows@, key),
        }
    }

    /// Every reference that the row holds names a row of the store.
    pub open spec fn linked<T: Row>(&self, row: T) -> bool {
        forall|t: Table| (#[trigger] row.parent(t)) is Some ==> self.has(t, row.parent(t)->0)
    }

    /// Every reference that any of the rows holds names a row of the store.
    pub open spec fn all_linked<T: Row>(&self, rows: Seq<T>) -> bool {
        forall|i: int| 0 <= i < rows.len() ==> self.linked(#[trigger] rows[i])
    }

    /// Each table's keys are in order.
    pub open spec fn keyed(&self) -> bool {
        &&& self.user_roles.wf()
        &&& self.users.wf()
        &&& self.seeds.wf()
        &&& self.lands.wf()
        &&& self.sensors.wf()
        &&& self.sensor_histories.wf()
        &&& self.plants.wf()
        &&& self.valves.wf()
        &&& self.pumps.wf()
        &&& self.automations.wf()
        &&& self.automation_histories.wf()
        &&& self.recommendations.wf()
        &&& self.pest_controls.wf()
        &&& self.notifications.wf()
    }

    /// No reference dangles.
    pub open spec fn referential(&self) -> bool {
        &&& self.all_linked(self.user_roles.rows@)
        &&& self.all_linked(self.users.rows@)
        &&& self.all_linked(self.seeds.rows@)
        &&& self.all_linked(self.lands.rows@)
        &&& self.all_linked(self.sensors.rows@)
        &&& self.all_linked(self.sensor_histories.rows@)
        &&& self.all_linked(self.plants.rows@)
        &&& self.all_linked(self.valves.rows@)
        &&& self.all_linked(self.pumps.rows@)
        &&& self.all_linked(self.automations.rows@)
        &&& self.all_linked(self.automation_histories.rows@)
        &&& self.all_linked(self.recommendations.rows@)
        &&& self.all_linked(self.pest_controls.rows@)
        &&& self.all_linked(self.notifications.rows@)
    }

    /// The store's consistency rules hold: keys are in order, no reference
    /// dangles, and no two users and no two roles go by the same name.
    pub open spec fn wf(&self) -> bool {
        &&& self.keyed()
        &&& self.referential()
        &&& unique_labels(self.users.rows@)
        &&& unique_labels(self.user_roles.rows@)
    }

    /// A store with the schema in place and no rows.
    pub fn new() -> (s: Store)
        ensures
            s.wf(),
            s.is_empty(),
    {
        Store {
            user_roles: Rows::new(),
            users: Rows::new(),
            seeds: Rows::new(),
            lands: Rows::new(),
            sensors: Rows::new(),
            sensor_histories: Rows::new(),
            plants: Rows::new(),
            valves: Rows::new(),
            pumps: Rows::new(),
            automations: Rows::new(),
            automation_histories: Rows::new(),
            recommendations: Rows::new(),
            pest_controls: Rows::new(),
            notifications: Rows::new(),
        }
    }

    /// No table holds a row, and every table's first key will be 1.
    pub open spec fn is_empty(&self) -> bool {
        &&& self.user_roles.rows@.len() == 0 && self.user_roles.next == 1
        &&& self.users.rows@.len() == 0 && self.users.next == 1
        &&& self.seeds.rows@.len() == 0 && self.seeds.next == 1
        &&& self.lands.rows@.len() == 0 && self.lands.next == 1
        &&& self.sensors.rows@.len() == 0 && self.sensors.next == 1
        &&& self.sensor_histories.rows@.len() == 0 && self.sensor_histories.next == 1
        &&& self.plants.rows@.len() == 0 && self.plants.next == 1
        &&& self.valves.rows@.len() == 0 && self.valves.next == 1
        &&& self.pumps.rows@.len() == 0 && self.pumps.next == 1
        &&& self.automations.rows@.len() == 0 && self.automations.next == 1
        &&& self.automation_histories.rows@.len() == 0 && self.automation_histories.next == 1
        &&& self.recommendations.rows@.len() == 0 && self.recommendations.next == 1
        &&& self.pest_controls.rows@.len() == 0 && self.pest_controls.next == 1
        &&& self.notifications.rows@.len() == 0 && self.notifications.next == 1
    }

    /// Whether the table `table` holds a row with the key `key`.
    pub fn contains(&self, table: Table, key: i32) -> (b: bool)
        ensures
            b == self.has(table, key as int),
    {
        match table {
            Table::UserRole => self.user_roles.contains(key),
            Table::User => self.users.contains(key),
            Table::Seed => self.seeds.contains(key),
            Table::Land => self.lands.contains(key),
            Table::Sensor => self.sensors.contains(key),
            Table::SensorHistory => self.sensor_histories.contains(key),
            Table::Plant => self.plants.contains(key),
            Table::Valve => self.valves.contains(key),
            Table::Pump => self.pumps.contains(key),
            Table::Automation => self.automations.contains(key),
            Table::AutomationHistory => self.automation_histories.contains(key),
            Table::Recommendation => self.recommendations.contains(key),
            Table::PestControl => self.pest_controls.contains(key),
            Table::Notification => self.notifications.contains(key),
        }
    }

    fn link_holds<T: Row>(&self, row: &T, table: Table) -> (b: bool)
        ensures
            b == (row.parent(table) is Some ==> self.has(table, row.parent(table)->0)),
    {
        match row.parent_id(table) {
            Some(k) => self.contains(table, k),
            None => true,
        }
    }

    /// Whether every reference that the row holds names a row of the store.
    pub fn links_hold<T: Row>(&self, row: &T) -> (b: bool)
        ensures
            b == self.linked(*row),
    {
        let b = self.link_holds(row, Table::UserRole) && self.link_holds(row, Table::User)
            && self.link_holds(row, Table::Seed) && self.link_holds(row, Table::Land)
            && self.link_holds(row, Table::Sensor) && self.link_holds(row, Table::SensorHistory)
            && self.link_holds(row, Table::Plant) && self.link_holds(row, Table::Valve)
            && self.link_holds(row, Table::Pump) && self.link_holds(row, Table::Automation)
            && self.link_holds(row, Table::AutomationHistory) && self.link_holds(
            row,
            Table::Recommendation,
        ) && self.link_holds(row, Table::PestControl) && self.link_holds(row, Table::Notification);
        proof {
            if b {
                assert forall|t: Table| (#[trigger] row.parent(t)) is Some implies self.has(
                    t,
                    row.parent(t)->0,
                ) by {
                    match t {
                        Table::UserRole => {},
                        Table::User => {},
                        Table::Seed => {},
                        Table::Land => {},
                        Table::Sensor => {},
                        Table::SensorHistory => {},
                        Table::Plant => {},
                        Table::Valve => {},
                        Table::Pump => {},
                        Table::Automation => {},
                        Table::AutomationHistory => {},
                        Table::Recommendation => {},
                        Table::PestControl => {},
                        Table::Notification => {},
                    }
                }
            }
        }
        b
    }
}

} // verus!
