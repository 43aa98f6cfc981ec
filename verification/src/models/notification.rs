//! Notifications.

use vstd::prelude::*;
use crate::schema::{reference, ForeignKeyAction, RelationDef, RelationKind, Row, Table};
use crate::values::same_text;

verus! {

/// A message for a user.
#[derive(Debug, PartialEq, Eq)]
pub struct Model {
    pub id: i32,
    pub user_id: i32,
    pub description: String,
}

impl Clone for Model {
    fn clone(&self) -> (r: Self)
        ensures
            r == *self,
    {
        Model {
            id: self.id,
            user_id: self.user_id,
            description: self.description.clone(),
        }
    }
}

impl Row for Model {
    open spec fn table() -> Table {
        Table::Notification
    }

    open spec fn key(&self) -> int {
        self.id as int
    }

    open spec fn parent(&self, table: Table) -> Option<int> {
        match table {
            Table::User => Some(self.user_id as int),
            _ => None,
        }
    }

    open spec fn label(&self) -> Option<Seq<char>> {
        Some(self.description@)
    }

    open spec fn keyed(&self, id: int) -> Self {
        Model { id: id as i32, ..*self }
    }

    proof fn lemma_keyed(&self, id: int) {
    }

    fn id(&self) -> (id: i32) {
        self.id
    }

    fn parent_id(&self, table: Table) -> (p: Option<i32>) {
        match table {
            Table::User => Some(self.user_id),
            _ => None,
        }
    }

    fn is_named(&self, name: &str) -> (b: bool) {
        same_text(self.description.as_str(), name)
    }

    fn with_id(self, id: i32) -> (r: Self) {
        Model { id, ..self }
    }

    fn duplicate(&self) -> (r: Self) {
        self.clone()
    }
}

/// The relations of the `notification` table.
#[derive(Clone, Copy, Debug, PartialEq, Eq, Structural)]
pub enum Relation {
    User,
}

impl Relation {
    pub open spec fn def_spec(self) -> RelationDef {
        match self {
            Relation::User => RelationDef {
                kind: RelationKind::BelongsTo,
                from_tbl: Table::Notification,
                to_tbl: Table::User,
                on_update: Some(ForeignKeyAction::Cascade),
                on_delete: Some(ForeignKeyAction::Cascade),
            },
        }
    }

    /// The relation's definition. Where this table holds the reference, the
    /// definition gives the schema's foreign key with its action on delete.
    pub fn def(&self) -> (d: RelationDef)
        ensures
            d == self.def_spec(),
            d.kind == RelationKind::BelongsTo ==> reference(d.from_tbl, d.to_tbl) == Some(
                d.foreign_key().2,
            ),
            d.kind == RelationKind::HasMany ==> reference(d.to_tbl, d.from_tbl) is Some,
    {
        match self {
            Relation::User => RelationDef {
                kind: RelationKind::BelongsTo,
                from_tbl: Table::Notification,
                to_tbl: Table::User,
                on_update: Some(ForeignKeyAction::Cascade),
                on_delete: Some(ForeignKeyAction::Cascade),
            },
        }
    }
}

} // verus!
