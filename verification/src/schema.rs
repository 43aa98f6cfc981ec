//! The tables of the relational schema and the references between them.

use vstd::prelude::*;
use crate::values::Timestamp;

verus! {

/// One table of the schema.
#[derive(Clone, Copy, Debug, PartialEq, Eq, Structural)]
pub enum Table {
    UserRole,
    User,
    Seed,
    Land,
    Sensor,
    SensorHistory,
    Plant,
    Valve,
    Pump,
    Automation,
    AutomationHistory,
    Recommendation,
    PestControl,
    Notification,
}

impl Table {
    /// The table's name in the database.
    pub fn name(&self) -> (s: &'static str)
        ensures
            s@ == self.name_spec(),
    {
        match self {
            Table::UserRole => "user_role",
            Table::User => "user",
            Table::Seed => "seed",
            Table::Land => "land",
            Table::Sensor => "sensor",
            Table::SensorHistory => "sensor_history",
            Table::Plant => "plant",
            Table::Valve => "valve",
            Table::Pump => "pump",
            Table::Automation => "automation",
            Table::AutomationHistory => "automation_history",
            Table::Recommendation => "recommendation",
            Table::PestControl => "pest_control",
            Table::Notification => "notification",
        }
    }

    pub open spec fn name_spec(self) -> Seq<char> {
        match self {
            Table::UserRole => "user_role"@,
            Table::User => "user"@,
            Table::Seed => "seed"@,
            Table::Land => "land"@,
            Table::Sensor => "sensor"@,
            Table::SensorHistory => "sensor_history"@,
            Table::Plant => "plant"@,
            Table::Valve => "valve"@,
            Table::Pump => "pump"@,
            Table::Automation => "automation"@,
            Table::AutomationHistory => "automation_history"@,
            Table::Recommendation => "recommendation"@,
            Table::PestControl => "pest_control"@,
            Table::Notification => "notification"@,
        }
    }
}

/// What the database does to a referencing row when the row it refers to is
/// deleted or its key is updated.
#[derive(Clone, Copy, Debug, PartialEq, Eq, Structural)]
pub enum ForeignKeyAction {
    /// The statement fails while a referencing row remains.
    NoAction,
    /// The referencing row follows the referenced one.
    Cascade,
}

/// The side of a relation that a table is on.
#[derive(Clone, Copy, Debug, PartialEq, Eq, Structural)]
pub enum RelationKind {
    /// The table holds a column that refers to the other table's key.
    BelongsTo,
    /// Rows of the other table refer to this table's key.
    HasMany,
}

/// A relation between two tables, seen from `from_tbl`.
#[derive(Clone, Copy, Debug, PartialEq, Eq, Structural)]
pub struct RelationDef {
    pub kind: RelationKind,
    pub from_tbl: Table,
    pub to_tbl: Table,
    pub on_update: Option<ForeignKeyAction>,
    pub on_delete: Option<ForeignKeyAction>,
}

impl RelationDef {
    /// The foreign key that this relation declares, as (referencing table,
    /// referenced table, action on delete).
    pub open spec fn foreign_key(self) -> (Table, Table, ForeignKeyAction) {
        let action = match self.on_delete {
            Some(a) => a,
            None => ForeignKeyAction::NoAction,
        };
        match self.kind {
            RelationKind::BelongsTo => (self.from_tbl, self.to_tbl, action),
            RelationKind::HasMany => (self.to_tbl, self.from_tbl, action),
        }
    }
}

/// The foreign keys of the schema: what happens to a row of `child` when the
/// row of `parent` that it refers to is deleted, or `None` where `child` holds
/// no reference into `parent`.
pub open spec fn reference(child: Table, parent: Table) -> Option<ForeignKeyAction> {
    match (child, parent) {
        (Table::User, Table::UserRole) => Some(ForeignKeyAction::NoAction),
        (Table::Land, Table::User) => Some(ForeignKeyAction::Cascade),
        (Table::Sensor, Table::Land) => Some(ForeignKeyAction::Cascade),
        (Table::SensorHistory, Table::Sensor) => Some(ForeignKeyAction::Cascade),
        (Table::Plant, Table::Land) => Some(ForeignKeyAction::Cascade),
        (Table::Plant, Table::Seed) => Some(ForeignKeyAction::Cascade),
        (Table::Valve, Table::Land) => Some(ForeignKeyAction::Cascade),
        (Table::Pump, Table::Land) => Some(ForeignKeyAction::Cascade),
        (Table::Automation, Table::Land) => Some(ForeignKeyAction::Cascade),
        (Table::Automation, Table::Sensor) => Some(ForeignKeyAction::NoAction),
        (Table::Automation, Table::Pump) => Some(ForeignKeyAction::NoAction),
        (Table::Automation, Table::Valve) => Some(ForeignKeyAction::NoAction),
        (Table::AutomationHistory, Table::Automation) => Some(ForeignKeyAction::Cascade),
        (Table::Recommendation, Table::Seed) => Some(ForeignKeyAction::Cascade),
        (Table::PestControl, Table::Land) => Some(ForeignKeyAction::Cascade),
        (Table::Notification, Table::User) => Some(ForeignKeyAction::Cascade),
        _ => None,
    }
}

/// A record of one table: its primary key and the keys by which it refers to
/// rows of other tables.
pub trait Row: Sized {
    /// The table that holds such records.
    spec fn table() -> Table;

    /// The primary key.
    spec fn key(&self) -> int;

    /// The key of the row of `table` that this row refers to, if it holds a
    /// reference into that table.
    spec fn parent(&self, table: Table) -> Option<int>;

    /// The name by which the row is looked up, where its table has one.
    spec fn label(&self) -> Option<Seq<char>>;

    /// This row under another primary key, every other field unchanged.
    spec fn keyed(&self, id: int) -> Self;

    proof fn lemma_keyed(&self, id: int)
        requires
            i32::MIN <= id <= i32::MAX,
        ensures
            self.keyed(id).key() == id,
            forall|t: Table| self.keyed(id).parent(t) == self.parent(t),
            self.keyed(id).label() == self.label(),
            self.keyed(self.key()) == *self,
            forall|t: Table| self.parent(t) is Some <==> reference(Self::table(), t) is Some,
    ;

    fn id(&self) -> (id: i32)
        ensures
            id == self.key(),
    ;

    fn parent_id(&self, table: Table) -> (p: Option<i32>)
        ensures
            match p {
                Some(k) => self.parent(table) == Some(k as int),
                None => self.parent(table) is None,
            },
    ;

    fn is_named(&self, name: &str) -> (b: bool)
        ensures
            b == (self.label() == Some(name@)),
    ;

    fn with_id(self, id: i32) -> (r: Self)
        ensures
            r == self.keyed(id as int),
    ;

    fn duplicate(&self) -> (r: Self)
        ensures
            r == *self,
    ;
}

/// A record that carries the instant at which it was taken.
pub trait Stamped: Row {
    spec fn stamp(&self) -> Timestamp;

    fn timestamp(&self) -> (t: Timestamp)
        ensures
            t == self.stamp(),
    ;
}

} // verus!
