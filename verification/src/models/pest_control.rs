//! Pest-control tasks.

use vstd::prelude::*;
use vstd::string::StringExecFns;
use crate::schema::{reference, ForeignKeyAction, RelationDef, RelationKind, Row, Table};
use crate::values::same_text;

verus! {

/// How far a pest-control task has come.
#[derive(Clone, Copy, Debug, PartialEq, Eq, Structural)]
pub enum PestControlStatus {
    NoAction,
    Wip,
    Done,
}

impl PestControlStatus {
    /// The text under which the variant is stored.
    pub open spec fn value(self) -> Seq<char> {
        match self {
            PestControlStatus::NoAction => "no_action"@,
            PestControlStatus::Wip => "wip"@,
            PestControlStatus::Done => "done"@,
        }
    }

    /// Encodes the variant for storage.
    pub fn to_value(&self) -> (s: String)
        ensures
            s@ == self.value(),
    {
        match self {
            PestControlStatus::NoAction => String::from_str("no_action"),
            PestControlStatus::Wip => String::from_str("wip"),
            PestControlStatus::Done => String::from_str("done"),
        }
    }

    /// Decodes a stored text: the variant stored under exactly that text, or
    /// `None` where there is none.
    pub fn try_from_value(text: &str) -> (r: Option<PestControlStatus>)
        ensures
            match r {
                Some(v) => v.value() == text@,
                None => forall|v: PestControlStatus| v.value() != text@,
            },
    {
        if same_text(text, "no_action") {
            Some(PestControlStatus::NoAction)
        } else if same_text(text, "wip") {
            Some(PestControlStatus::Wip)
        } else if same_text(text, "done") {
            Some(PestControlStatus::Done)
        } else {
            None
        }
    }

    /// No two variants are stored under the same text, so decoding undoes
    /// encoding.
    pub proof fn lemma_value_injective(a: PestControlStatus, b: PestControlStatus)
        requires
            a.value() == b.value(),
        ensures
            a == b,
    {
        reveal_strlit("no_action");
        reveal_strlit("wip");
        reveal_strlit("done");
        assert("no_action"@.len() != "wip"@.len());
        assert("no_action"@.len() != "done"@.len());
        assert("wip"@.len() != "done"@.len());
    }
}

/// A pest-control task on a land plot.
#[derive(Debug, PartialEq, Eq)]
pub struct Model {
    pub id: i32,
    pub name: String,
    pub status: PestControlStatus,
    pub land_id: i32,
}

impl Clone for Model {
    fn clone(&self) -> (r: Self)
        ensures
            r == *self,
    {
        Model {
            id: self.id,
            name: self.name.clone(),
            status: self.status,
            land_id: self.land_id,
        }
    }
}

impl Row for Model {
    open spec fn table() -> Table {
        Table::PestControl
    }

    open spec fn key(&self) -> int {
        self.id as int
    }

    open spec fn parent(&self, table: Table) -> Option<int> {
        match table {
            Table::Land => Some(self.land_id as int),
            _ => None,
        }
    }

    open spec fn label(&self) -> Option<Seq<char>> {
        Some(self.name@)
    }

    open spec fn keyed(&self, id: int) -> Self {
        Model { id: id as i32, ..*self }
    }

    proof fn lemma_keyed(&self, id: int) {
    }

    fn id(&self) -> (id: i32) {
        self.id
    }

    fn parent_id(&self, table: Table) -> (p: Option<i32>) {
        match table {
            Table::Land => Some(self.land_id),
            _ => None,
        }
    }

    fn is_named(&self, name: &str) -> (b: bool) {
        same_text(self.name.as_str(), name)
    }

    fn with_id(self, id: i32) -> (r: Self) {
        Model { id, ..self }
    }

    fn duplicate(&self) -> (r: Self) {
        self.clone()
    }
}

/// The relations of the `pest_control` table.
#[derive(Clone, Copy, Debug, PartialEq, Eq, Structural)]
pub enum Relation {
    Land,
}

impl Relation {
    pub open spec fn def_spec(self) -> RelationDef {
        match self {
            Relation::Land => RelationDef {
                kind: RelationKind::BelongsTo,
                from_tbl: Table::PestControl,
                to_tbl: Table::Land,
                on_update: Some(ForeignKeyAction::Cascade),
                on_delete: Some(ForeignKeyAction::Cascade),
            },
        }
    }

    /// The relation's definition. Where this table holds the reference, the
    /// definition gives the schema's foreign key with its action on delete.
    pub fn def(&self) -> (d: RelationDef)
        ensures
            d == self.def_spec(),
            d.kind == RelationKind::BelongsTo ==> reference(d.from_tbl, d.to_tbl) == Some(
                d.foreign_key().2,
            ),
            d.kind == RelationKind::HasMany ==> reference(d.to_tbl, d.from_tbl) is Some,
    {
        match self {
            Relation::Land => RelationDef {
                kind: RelationKind::BelongsTo,
                from_tbl: Table::PestControl,
                to_tbl: Table::Land,
                on_update: Some(ForeignKeyAction::Cascade),
                on_delete: Some(ForeignKeyAction::Cascade),
            },
        }
    }
}

} // verus!
