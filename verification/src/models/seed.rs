//! Seeds.

use vstd::prelude::*;
use crate::schema::{reference, RelationDef, RelationKind, Row, Table};
use crate::values::same_text;

verus! {

/// A plant variety, referred to by plants and recommendations.
#[derive(Debug, PartialEq, Eq)]
pub struct Model {
    pub id: i32,
    pub name: String,
}

impl Clone for Model {
    fn clone(&self) -> (r: Self)
        ensures
            r == *self,
    {
        Model {
            id: self.id,
            name: self.name.clone(),
        }
    }
}

impl Row for Model {
    open spec fn table() -> Table {
        Table::Seed
    }

    open spec fn key(&self) -> int {
        self.id as int
    }

    open spec fn parent(&self, table: Table) -> Option<int> {
        match table {
            _ => None,
        }
    }

    open spec fn label(&self) -> Option<Seq<char>> {
        Some(self.name@)
    }

    open spec fn keyed(&self, id: int) -> Self {
        Model { id: id as i32, ..*self }
    }

    proof fn lemma_keyed(&self, id: int) {
    }

    fn id(&self) -> (id: i32) {
        self.id
    }

    fn parent_id(&self, table: Table) -> (p: Option<i32>) {
        match table {
            _ => None,
        }
    }

    fn is_named(&self, name: &str) -> (b: bool) {
        same_text(self.name.as_str(), name)
    }

    fn with_id(self, id: i32) -> (r: Self) {
        Model { id, ..self }
    }

    fn duplicate(&self) -> (r: Self) {
        self.clone()
    }
}

/// The relations of the `seed` table.
#[derive(Clone, Copy, Debug, PartialEq, Eq, Structural)]
pub enum Relation {
    Plant,
    Recommendation,
}

impl Relation {
    pub open spec fn def_spec(self) -> RelationDef {
        match self {
            Relation::Plant => RelationDef {
                kind: RelationKind::HasMany,
                from_tbl: Table::Seed,
                to_tbl: Table::Plant,
                on_update: None,
                on_delete: None,
            },
            Relation::Recommendation => RelationDef {
                kind: RelationKind::HasMany,
                from_tbl: Table::Seed,
                to_tbl: Table::Recommendation,
                on_update: None,
                on_delete: None,
            },
        }
    }

    /// The relation's definition. Where this table holds the reference, the
    /// definition gives the schema's foreign key with its action on delete.
    pub fn def(&self) -> (d: RelationDef)
        ensures
            d == self.def_spec(),
            d.kind == RelationKind::BelongsTo ==> reference(d.from_tbl, d.to_tbl) == Some(
                d.foreign_key().2,
            ),
            d.kind == RelationKind::HasMany ==> reference(d.to_tbl, d.from_tbl) is Some,
    {
        match self {
            Relation::Plant => RelationDef {
                kind: RelationKind::HasMany,
                from_tbl: Table::Seed,
                to_tbl: Table::Plant,
                on_update: None,
                on_delete: None,
            },
            Relation::Recommendation => RelationDef {
                kind: RelationKind::HasMany,
                from_tbl: Table::Seed,
                to_tbl: Table::Recommendation,
                on_update: None,
                on_delete: None,
            },
        }
    }
}

} // verus!
