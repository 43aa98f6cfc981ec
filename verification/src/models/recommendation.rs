//! Recommendations.

use vstd::prelude::*;
use vstd::string::StringExecFns;
use crate::schema::{reference, ForeignKeyAction, RelationDef, RelationKind, Row, Table};
use crate::values::same_text;

verus! {

/// What a recommendation is about.
#[derive(Clone, Copy, Debug, PartialEq, Eq, Structural)]
pub enum RecommendationType {
    Watering,
    Fertilization,
    PestControl,
}

impl RecommendationType {
    /// The text under which the variant is stored.
    pub open spec fn value(self) -> Seq<char> {
        match self {
            RecommendationType::Watering => "Watering"@,
            RecommendationType::Fertilization => "Fertilization"@,
            RecommendationType::PestControl => "PestControl"@,
        }
    }

    /// Encodes the variant for storage.
    pub fn to_value(&self) -> (s: String)
        ensures
            s@ == self.value(),
    {
        match self {
            RecommendationType::Watering => String::from_str("Watering"),
            RecommendationType::Fertilization => String::from_str("Fertilization"),
            RecommendationType::PestControl => String::from_str("PestControl"),
        }
    }

    /// Decodes a stored text: the variant stored under exactly that text, or
    /// `None` where there is none.
    pub fn try_from_value(text: &str) -> (r: Option<RecommendationType>)
        ensures
            match r {
                Some(v) => v.value() == text@,
                None => forall|v: RecommendationType| v.value() != text@,
            },
    {
        if same_text(text, "Watering") {
            Some(RecommendationType::Watering)
        } else if same_text(text, "Fertilization") {
            Some(RecommendationType::Fertilization)
        } else if same_text(text, "PestControl") {
            Some(RecommendationType::PestControl)
        } else {
            None
        }
    }

    /// No two variants are stored under the same text, so decoding undoes
    /// encoding.
    pub proof fn lemma_value_injective(a: RecommendationType, b: RecommendationType)
        requires
            a.value() == b.value(),
        ensures
            a == b,
    {
        reveal_strlit("Watering");
        reveal_strlit("Fertilization");
        reveal_strlit("PestControl");
        assert("Watering"@.len() != "Fertilization"@.len());
        assert("Watering"@.len() != "PestControl"@.len());
        assert("Fertilization"@.len() != "PestControl"@.len());
    }
}

/// Advice attached to a seed.
#[derive(Debug, PartialEq, Eq)]
pub struct Model {
    pub id: i32,
    pub name: String,
    pub description: String,
    pub rec_type: RecommendationType,
    pub seed_id: i32,
}

impl Clone for Model {
    fn clone(&self) -> (r: Self)
        ensures
            r == *self,
    {
        Model {
            id: self.id,
            name: self.name.clone(),
            description: self.description.clone(),
            rec_type: self.rec_type,
            seed_id: self.seed_id,
        }
    }
}

impl Row for Model {
    open spec fn table() -> Table {
        Table::Recommendation
    }

    open spec fn key(&self) -> int {
        self.id as int
    }

    open spec fn parent(&self, table: Table) -> Option<int> {
        match table {
            Table::Seed => Some(self.seed_id as int),
            _ => None,
        }
    }

    open spec fn label(&self) -> Option<Seq<char>> {
        Some(self.name@)
    }

    open spec fn keyed(&self, id: int) -> Self {
        Model { id: id as i32, ..*self }
    }

    proof fn lemma_keyed(&self, id: int) {
    }

    fn id(&self) -> (id: i32) {
        self.id
    }

    fn parent_id(&self, table: Table) -> (p: Option<i32>) {
        match table {
            Table::Seed => Some(self.seed_id),
            _ => None,
        }
    }

    fn is_named(&self, name: &str) -> (b: bool) {
        same_text(self.name.as_str(), name)
    }

    fn with_id(self, id: i32) -> (r: Self) {
        Model { id, ..self }
    }

    fn duplicate(&self) -> (r: Self) {
        self.clone()
    }
}

/// The relations of the `recommendation` table.
#[derive(Clone, Copy, Debug, PartialEq, Eq, Structural)]
pub enum Relation {
    Seed,
}

impl Relation {
    pub open spec fn def_spec(self) -> RelationDef {
        match self {
            Relation::Seed => RelationDef {
                kind: RelationKind::BelongsTo,
                from_tbl: Table::Recommendation,
                to_tbl: Table::Seed,
                on_update: Some(ForeignKeyAction::Cascade),
                on_delete: Some(ForeignKeyAction::Cascade),
            },
        }
    }

    /// The relation's definition. Where this table holds the reference, the
    /// definition gives the schema's foreign key with its action on delete.
    pub fn def(&self) -> (d: RelationDef)
        ensures
            d == self.def_spec(),
            d.kind == RelationKind::BelongsTo ==> reference(d.from_tbl, d.to_tbl) == Some(
                d.foreign_key().2,
            ),
            d.kind == RelationKind::HasMany ==> reference(d.to_tbl, d.from_tbl) is Some,
    {
        match self {
            Relation::Seed => RelationDef {
                kind: RelationKind::BelongsTo,
                from_tbl: Table::Recommendation,
                to_tbl: Table::Seed,
                on_update: Some(ForeignKeyAction::Cascade),
                on_delete: Some(ForeignKeyAction::Cascade),
            },
        }
    }
}

} // verus!
