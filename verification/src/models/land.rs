//! Land plots.

use vstd::prelude::*;
use crate::schema::{reference, ForeignKeyAction, RelationDef, RelationKind, Row, Table};
use crate::values::{Real, same_text};

verus! {

/// A farm plot owned by a user.
#[derive(Debug, PartialEq, Eq)]
pub struct Model {
    pub id: i32,
    pub location_name: String,
    pub size: Real,
    pub user_id: i32,
}

impl Clone for Model {
    fn clone(&self) -> (r: Self)
        ensures
            r == *self,
    {
        Model {
            id: self.id,
            location_name: self.location_name.clone(),
            size: self.size,
            user_id: self.user_id,
        }
    }
}

impl Row for Model {
    open spec fn table() -> Table {
        Table::Land
    }

    open spec fn key(&self) -> int {
        self.id as int
    }

    open spec fn parent(&self, table: Table) -> Option<int> {
        match table {
            Table::User => Some(self.user_id as int),
            _ => None,
        }
    }

    open spec fn label(&self) -> Option<Seq<char>> {
        Some(self.location_name@)
    }

    open spec fn keyed(&self, id: int) -> Self {
        Model { id: id as i32, ..*self }
    }

    proof fn lemma_keyed(&self, id: int) {
    }

    fn id(&self) -> (id: i32) {
        self.id
    }

    fn parent_id(&self, table: Table) -> (p: Option<i32>) {
        match table {
            Table::User => Some(self.user_id),
            _ => None,
        }
    }

    fn is_named(&self, name: &str) -> (b: bool) {
        same_text(self.location_name.as_str(), name)
    }

    fn with_id(self, id: i32) -> (r: Self) {
        Model { id, ..self }
    }

    fn duplicate(&self) -> (r: Self) {
        self.clone()
    }
}

/// The relations of the `land` table.
#[derive(Clone, Copy, Debug, PartialEq, Eq, Structural)]
pub enum Relation {
    User,
    Sensor,
    Plant,
    Valve,
    Pump,
    Automation,
}

impl Relation {
    pub open spec fn def_spec(self) -> RelationDef {
        match self {
            Relation::User => RelationDef {
                kind: RelationKind::BelongsTo,
                from_tbl: Table::Land,
                to_tbl: Table::User,
                on_update: Some(ForeignKeyAction::Cascade),
                on_delete: Some(ForeignKeyAction::Cascade),
            },
            Relation::Sensor => RelationDef {
                kind: RelationKind::HasMany,
                from_tbl: Table::Land,
                to_tbl: Table::Sensor,
                on_update: None,
                on_delete: None,
            },
            Relation::Plant => RelationDef {
                kind: RelationKind::HasMany,
                from_tbl: Table::Land,
                to_tbl: Table::Plant,
                on_update: None,
                on_delete: None,
            },
            Relation::Valve => RelationDef {
                kind: RelationKind::HasMany,
                from_tbl: Table::Land,
                to_tbl: Table::Valve,
                on_update: None,
                on_delete: None,
            },
            Relation::Pump => RelationDef {
                kind: RelationKind::HasMany,
                from_tbl: Table::Land,
                to_tbl: Table::Pump,
                on_update: None,
                on_delete: None,
            },
            Relation::Automation => RelationDef {
                kind: RelationKind::HasMany,
                from_tbl: Table::Land,
                to_tbl: Table::Automation,
                on_update: None,
                on_delete: None,
            },
        }
    }

    /// The relation's definition. Where this table holds the reference, the
    /// definition gives the schema's foreign key with its action on delete.
    pub fn def(&self) -> (d: RelationDef)
        ensures
            d == self.def_spec(),
            d.kind == RelationKind::BelongsTo ==> reference(d.from_tbl, d.to_tbl) == Some(
                d.foreign_key().2,
            ),
            d.kind == RelationKind::HasMany ==> reference(d.to_tbl, d.from_tbl) is Some,
    {
        match self {
            Relation::User => RelationDef {
                kind: RelationKind::BelongsTo,
                from_tbl: Table::Land,
                to_tbl: Table::User,
                on_update: Some(ForeignKeyAction::Cascade),
                on_delete: Some(ForeignKeyAction::Cascade),
            },
            Relation::Sensor => RelationDef {
                kind: RelationKind::HasMany,
                from_tbl: Table::Land,
                to_tbl: Table::Sensor,
                on_update: None,
                on_delete: None,
            },
            Relation::Plant => RelationDef {
                kind: RelationKind::HasMany,
                from_tbl: Table::Land,
                to_tbl: Table::Plant,
                on_update: None,
                on_delete: None,
            },
            Relation::Valve => RelationDef {
                kind: RelationKind::HasMany,
                from_tbl: Table::Land,
                to_tbl: Table::Valve,
                on_update: None,
                on_delete: None,
            },
            Relation::Pump => RelationDef {
                kind: RelationKind::HasMany,
                from_tbl: Table::Land,
                to_tbl: Table::Pump,
                on_update: None,
                on_delete: None,
            },
            Relation::Automation => RelationDef {
                kind: RelationKind::HasMany,
                from_tbl: Table::Land,
                to_tbl: Table::Automation,
                on_update: None,
                on_delete: None,
            },
        }
    }
}

} // verus!
