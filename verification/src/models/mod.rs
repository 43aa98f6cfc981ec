//! The records of the schema, one module per table.

use vstd::prelude::*;
use crate::schema::Table;

pub mod automation;
pub mod automation_history;
pub mod land;
pub mod notification;
pub mod pest_control;
pub mod plant;
pub mod pump;
pub mod recommendation;
pub mod seed;
pub mod sensor;
pub mod sensor_history;
pub mod user;
pub mod user_role;
pub mod valve;

verus! {

/// A row of any table.
#[derive(Debug, PartialEq, Eq)]
pub enum Record {
    UserRole(user_role::Model),
    User(user::Model),
    Seed(seed::Model),
    Land(land::Model),
    Sensor(sensor::Model),
    SensorHistory(sensor_history::Model),
    Plant(plant::Model),
    Valve(valve::Model),
    Pump(pump::Model),
    Automation(automation::Model),
    AutomationHistory(automation_history::Model),
    Recommendation(recommendation::Model),
    PestControl(pest_control::Model),
    Notification(notification::Model),
}

impl Record {
    /// The table that the row belongs to.
    pub open spec fn table_spec(self) -> Table {
        match self {
            Record::UserRole(_) => Table::UserRole,
            Record::User(_) => Table::User,
            Record::Seed(_) => Table::Seed,
            Record::Land(_) => Table::Land,
            Record::Sensor(_) => Table::Sensor,
            Record::SensorHistory(_) => Table::SensorHistory,
            Record::Plant(_) => Table::Plant,
            Record::Valve(_) => Table::Valve,
            Record::Pump(_) => Table::Pump,
            Record::Automation(_) => Table::Automation,
            Record::AutomationHistory(_) => Table::AutomationHistory,
            Record::Recommendation(_) => Table::Recommendation,
            Record::PestControl(_) => Table::PestControl,
            Record::Notification(_) => Table::Notification,
        }
    }

    /// The table that the row belongs to.
    pub fn table(&self) -> (t: Table)
        ensures
            t == self.table_spec(),
    {
        match self {
            Record::UserRole(_) => Table::UserRole,
            Record::User(_) => Table::User,
            Record::Seed(_) => Table::Seed,
            Record::Land(_) => Table::Land,
            Record::Sensor(_) => Table::Sensor,
            Record::SensorHistory(_) => Table::SensorHistory,
            Record::Plant(_) => Table::Plant,
            Record::Valve(_) => Table::Valve,
            Record::Pump(_) => Table::Pump,
            Record::Automation(_) => Table::Automation,
            Record::AutomationHistory(_) => Table::AutomationHistory,
            Record::Recommendation(_) => Table::Recommendation,
            Record::PestControl(_) => Table::PestControl,
            Record::Notification(_) => Table::Notification,
        }
    }
}

} // verus!
