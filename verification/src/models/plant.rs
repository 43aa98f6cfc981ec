//! Plants.

use vstd::prelude::*;
use crate::schema::{reference, ForeignKeyAction, RelationDef, RelationKind, Row, Table};
use crate::values::{same_text, Timestamp};

verus! {

/// A planting of one seed on one land plot.
#[derive(Debug, PartialEq, Eq)]
pub struct Model {
    pub id: i32,
    pub name: String,
    pub quantity: i32,
    pub land_id: i32,
    pub seed_id: i32,
    pub planted_at: Timestamp,
}

impl Clone for Model {
    fn clone(&self) -> (r: Self)
        ensures
            r == *self,
    {
        Model {
            id: self.id,
            name: self.name.clone(),
            quantity: self.quantity,
            land_id: self.land_id,
            seed_id: self.seed_id,
            planted_at: self.planted_at,
        }
    }
}

impl Row for Model {
    open spec fn table() -> Table {
        Table::Plant
    }

    open spec fn key(&self) -> int {
        self.id as int
    }

    open spec fn parent(&self, table: Table) -> Option<int> {
        match table {
            Table::Land => Some(self.land_id as int),
            Table::Seed => Some(self.seed_id as int),
            _ => None,
        }
    }

    open spec fn label(&self) -> Option<Seq<char>> {
        Some(self.name@)
    }

    open spec fn keyed(&self, id: int) -> Self {
        Model { id: id as i32, ..*self }
    }

    proof fn lemma_keyed(&self, id: int) {
    }

    fn id(&self) -> (id: i32) {
        self.id
    }

    fn parent_id(&self, table: Table) -> (p: Option<i32>) {
        match table {
            Table::Land => Some(self.land_id),
            Table::Seed => Some(self.seed_id),
            _ => None,
        }
    }

    fn is_named(&self, name: &str) -> (b: bool) {
        same_text(self.name.as_str(), name)
    }

    fn with_id(self, id: i32) -> (r: Self) {
        Model { id, ..self }
    }

    fn duplicate(&self) -> (r: Self) {
        self.clone()
    }
}

/// The relations of the `plant` table.
#[derive(Clone, Copy, Debug, PartialEq, Eq, Structural)]
pub enum Relation {
    Land,
    Seed,
}

impl Relation {
    pub open spec fn def_spec(self) -> RelationDef {
        match self {
            Relation::Land => RelationDef {
                kind: RelationKind::BelongsTo,
                from_tbl: Table::Plant,
                to_tbl: Table::Land,
                on_update: Some(ForeignKeyAction::Cascade),
                on_delete: Some(ForeignKeyAction::Cascade),
            },
            Relation::Seed => RelationDef {
                kind: RelationKind::BelongsTo,
                from_tbl: Table::Plant,
                to_tbl: Table::Seed,
                on_update: Some(ForeignKeyAction::Cascade),
                on_delete: Some(ForeignKeyAction::Cascade),
            },
        }
    }

    /// The relation's definition. Where this table holds the reference, the
    /// definition gives the schema's foreign key with its action on delete.
    pub fn def(&self) -> (d: RelationDef)
        ensures
            d == self.def_spec(),
            d.kind == RelationKind::BelongsTo ==> reference(d.from_tbl, d.to_tbl) == Some(
                d.foreign_key().2,
            ),
            d.kind == RelationKind::HasMany ==> reference(d.to_tbl, d.from_tbl) is Some,
    {
        match self {
            Relation::Land => RelationDef {
                kind: RelationKind::BelongsTo,
                from_tbl: Table::Plant,
                to_tbl: Table::Land,
                on_update: Some(ForeignKeyAction::Cascade),
                on_delete: Some(ForeignKeyAction::Cascade),
            },
            Relation::Seed => RelationDef {
                kind: RelationKind::BelongsTo,
                from_tbl: Table::Plant,
                to_tbl: Table::Seed,
                on_update: Some(ForeignKeyAction::Cascade),
                on_delete: Some(ForeignKeyAction::Cascade),
            },
        }
    }
}

} // verus!
