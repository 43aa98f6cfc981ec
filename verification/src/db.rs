//! The persistence gateway's decisions: the order in which the schema is
//! dropped and rebuilt, and the shape of a database failure.

use vstd::prelude::*;
use vstd::string::StringExecFns;
use crate::schema::{reference, Table};

verus! {

/// A failure reported by the database layer, in its two renderings.
#[derive(Debug, PartialEq, Eq)]
pub struct DbError {
    /// The message as shown to a user.
    pub display: String,
    /// The structured rendering for diagnosis.
    pub debug: String,
}

impl Clone for DbError {
    fn clone(&self) -> (r: Self)
        ensures
            r == *self,
    {
        DbError { display: self.display.clone(), debug: self.debug.clone() }
    }
}

impl DbError {
    /// An error whose two renderings are the same text.
    pub fn new(message: &str) -> (e: DbError)
        ensures
            e.display@ == message@,
            e.debug@ == message@,
    {
        DbError { display: String::from_str(message), debug: String::from_str(message) }
    }

    /// The text "Database error: " followed by the structured rendering.
    pub open spec fn report_spec(self) -> Seq<char> {
        "Database error: "@ + self.debug@
    }

    pub fn report(&self) -> (s: String)
        ensures
            s@ == self.report_spec(),
    {
        String::from_str("Database error: ").concat(self.debug.as_str())
    }

    /// The message as shown to a user.
    pub fn to_string(&self) -> (s: String)
        ensures
            s@ == self.display@,
    {
        self.display.clone()
    }

    /// The structured rendering alone.
    pub fn to_debug(&self) -> (s: String)
        ensures
            s@ == self.debug@,
    {
        self.debug.clone()
    }
}

/// One statement of the schema setup.
#[derive(Debug, PartialEq, Eq)]
pub enum Statement {
    /// Run this SQL text, which drops `table` if it exists.
    Drop { table: Table, sql: String },
    /// Create `table`, with its foreign keys, unless it exists.
    Create { table: Table },
}

/// What the schema setup does next.
#[derive(Debug, PartialEq, Eq)]
pub enum SetupNext {
    /// Execute the statement and come back with its outcome.
    Execute(Statement),
    /// The setup has ended, with success or with the failure that stopped it.
    Finish(Result<(), DbError>),
}

/// The tables in the order in which they are dropped.
pub open spec fn drop_order() -> Seq<Table> {
    seq![
        Table::Notification,
        Table::AutomationHistory,
        Table::Automation,
        Table::SensorHistory,
        Table::Sensor,
        Table::Plant,
        Table::Valve,
        Table::Pump,
        Table::Land,
        Table::Seed,
        Table::Recommendation,
        Table::PestControl,
        Table::User,
        Table::UserRole,
    ]
}

/// The tables in the order in which they are created: a table comes after
/// every table that it refers to.
pub open spec fn creation_order() -> Seq<Table> {
    seq![
        Table::UserRole,
        Table::User,
        Table::Seed,
        Table::Land,
        Table::Sensor,
        Table::SensorHistory,
        Table::Plant,
        Table::Valve,
        Table::Pump,
        Table::Automation,
        Table::AutomationHistory,
        Table::Recommendation,
        Table::PestControl,
        Table::Notification,
    ]
}

/// The SQL text that drops `table`, and with it whatever refers to it.
pub open spec fn drop_sql_spec(table: Table) -> Seq<char> {
    "DROP TABLE IF EXISTS \""@ + table.name_spec() + "\" CASCADE;"@
}

pub fn drop_sql(table: Table) -> (sql: String)
    ensures
        sql@ == drop_sql_spec(table),
{
    String::from_str("DROP TABLE IF EXISTS \"").concat(table.name()).concat("\" CASCADE;")
}

fn dropped(i: usize) -> (t: Table)
    requires
        i < 14,
    ensures
        t == drop_order()[i as int],
{
    if i == 0 {
        Table::Notification
    } else if i == 1 {
        Table::AutomationHistory
    } else if i == 2 {
        Table::Automation
    } else if i == 3 {
        Table::SensorHistory
    } else if i == 4 {
        Table::Sensor
    } else if i == 5 {
        Table::Plant
    } else if i == 6 {
        Table::Valve
    } else if i == 7 {
        Table::Pump
    } else if i == 8 {
        Table::Land
    } else if i == 9 {
        Table::Seed
    } else if i == 10 {
        Table::Recommendation
    } else if i == 11 {
        Table::PestControl
    } else if i == 12 {
        Table::User
    } else {
        Table::UserRole
    }
}

fn created(i: usize) -> (t: Table)
    requires
        i < 14,
    ensures
        t == creation_order()[i as int],
{
    if i == 0 {
        Table::UserRole
    } else if i == 1 {
        Table::User
    } else if i == 2 {
        Table::Seed
    } else if i == 3 {
        Table::Land
    } else if i == 4 {
        Table::Sensor
    } else if i == 5 {
        Table::SensorHistory
    } else if i == 6 {
        Table::Plant
    } else if i == 7 {
        Table::Valve
    } else if i == 8 {
        Table::Pump
    } else if i == 9 {
        Table::Automation
    } else if i == 10 {
        Table::AutomationHistory
    } else if i == 11 {
        Table::Recommendation
    } else if i == 12 {
        Table::PestControl
    } else {
        Table::Notification
    }
}

/// The step of the schema setup that follows `done` statements, the last of
/// which ended as `last` says: all tables are dropped, then all are created.
/// The first failure ends the setup.
pub fn setup_tables(done: usize, last: Result<(), DbError>) -> (next: SetupNext)
    ensures
        match last {
            Err(e) => next == SetupNext::Finish(Err(e)),
            Ok(()) => if done < 14 {
                next matches SetupNext::Execute(Statement::Drop { table, sql })
                    && table == drop_order()[done as int] && sql@ == drop_sql_spec(table)
            } else if done < 28 {
                next == SetupNext::Execute(
                    (Statement::Create { table: creation_order()[done - 14] }),
                )
            } else {
                next == SetupNext::Finish(Ok(()))
            },
        },
{
    match last {
        Err(e) => SetupNext::Finish(Err(e)),
        Ok(()) => {
            if done < 14 {
                let table = dropped(done);
                SetupNext::Execute(Statement::Drop { table, sql: drop_sql(table) })
            } else if done < 28 {
                SetupNext::Execute(Statement::Create { table: created(done - 14) })
            } else {
                SetupNext::Finish(Ok(()))
            }
        },
    }
}

/// Every table is created after each table that it refers to, so that no
/// foreign key names a table that does not exist yet.
pub proof fn law_creation_respects_references(i: int, j: int)
    requires
        0 <= i < 14,
        0 <= j < 14,
        reference(creation_order()[i], creation_order()[j]) is Some,
    ensures
        j < i,
{
}

/// Every table is dropped, and every table is created, exactly once.
pub proof fn law_orders_cover_schema(t: Table)
    ensures
        exists|i: int| 0 <= i < 14 && drop_order()[i] == t,
        exists|i: int| 0 <= i < 14 && creation_order()[i] == t,
        forall|i: int, j: int| 0 <= i < j < 14 ==> drop_order()[i] != drop_order()[j],
        forall|i: int, j: int| 0 <= i < j < 14 ==> creation_order()[i] != creation_order()[j],
{
    let d = drop_order();
    let c = creation_order();
    assert(d[0] == Table::Notification && d[1] == Table::AutomationHistory && d[2]
        == Table::Automation && d[3] == Table::SensorHistory && d[4] == Table::Sensor && d[5]
        == Table::Plant && d[6] == Table::Valve && d[7] == Table::Pump && d[8] == Table::Land
        && d[9] == Table::Seed && d[10] == Table::Recommendation && d[11] == Table::PestControl
        && d[12] == Table::User && d[13] == Table::UserRole);
    assert(c[0] == Table::UserRole && c[1] == Table::User && c[2] == Table::Seed && c[3]
        == Table::Land && c[4] == Table::Sensor && c[5] == Table::SensorHistory && c[6]
        == Table::Plant && c[7] == Table::Valve && c[8] == Table::Pump && c[9]
        == Table::Automation && c[10] == Table::AutomationHistory && c[11]
        == Table::Recommendation && c[12] == Table::PestControl && c[13] == Table::Notification);
}

} // verus!
