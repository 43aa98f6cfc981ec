//! Sensor readings.

use vstd::prelude::*;
use crate::schema::{reference, ForeignKeyAction, RelationDef, RelationKind, Row, Stamped, Table};
use crate::values::{Real, Timestamp};

verus! {

/// One reading of a sensor.
#[derive(Debug, PartialEq, Eq)]
pub struct Model {
    pub id: i32,
    pub sensor_id: i32,
    pub value: Real,
    pub recorded_at: Timestamp,
}

impl Clone for Model {
    fn clone(&self) -> (r: Self)
        ensures
            r == *self,
    {
        Model {
            id: self.id,
            sensor_id: self.sensor_id,
            value: self.value,
            recorded_at: self.recorded_at,
        }
    }
}

impl Row for Model {
    open spec fn table() -> Table {
        Table::SensorHistory
    }

    open spec fn key(&self) -> int {
        self.id as int
    }

    open spec fn parent(&self, table: Table) -> Option<int> {
        match table {
            Table::Sensor => Some(self.sensor_id as int),
            _ => None,
        }
    }

    open spec fn label(&self) -> Option<Seq<char>> {
        None
    }

    open spec fn keyed(&self, id: int) -> Self {
        Model { id: id as i32, ..*self }
    }

    proof fn lemma_keyed(&self, id: int) {
    }

    fn id(&self) -> (id: i32) {
        self.id
    }

    fn parent_id(&self, table: Table) -> (p: Option<i32>) {
        match table {
            Table::Sensor => Some(self.sensor_id),
            _ => None,
        }
    }

    fn is_named(&self, name: &str) -> (b: bool) {
        false
    }

    fn with_id(self, id: i32) -> (r: Self) {
        Model { id, ..self }
    }

    fn duplicate(&self) -> (r: Self) {
        self.clone()
    }
}

impl Stamped for Model {
    open spec fn stamp(&self) -> Timestamp {
        self.recorded_at
    }

    fn timestamp(&self) -> (t: Timestamp) {
        self.recorded_at
    }
}

/// The relations of the `sensor_history` table.
#[derive(Clone, Copy, Debug, PartialEq, Eq, Structural)]
pub enum Relation {
    Sensor,
}

impl Relation {
    pub open spec fn def_spec(self) -> RelationDef {
        match self {
            Relation::Sensor => RelationDef {
                kind: RelationKind::BelongsTo,
                from_tbl: Table::SensorHistory,
                to_tbl: Table::Sensor,
                on_update: Some(ForeignKeyAction::Cascade),
                on_delete: Some(ForeignKeyAction::Cascade),
            },
        }
    }

    /// The relation's definition. Where this table holds the reference, the
    /// definition gives the schema's foreign key with its action on delete.
    pub fn def(&self) -> (d: RelationDef)
        ensures
            d == self.def_spec(),
            d.kind == RelationKind::BelongsTo ==> reference(d.from_tbl, d.to_tbl) == Some(
                d.foreign_key().2,
            ),
            d.kind == RelationKind::HasMany ==> reference(d.to_tbl, d.from_tbl) is Some,
    {
        match self {
            Relation::Sensor => RelationDef {
                kind: RelationKind::BelongsTo,
                from_tbl: Table::SensorHistory,
                to_tbl: Table::Sensor,
                on_update: Some(ForeignKeyAction::Cascade),
                on_delete: Some(ForeignKeyAction::Cascade),
            },
        }
    }
}

} // verus!
