//! Automation rules.

use vstd::prelude::*;
use vstd::string::StringExecFns;
use crate::schema::{reference, ForeignKeyAction, RelationDef, RelationKind, Row, Table};
use crate::values::{Real, same_text};

verus! {

/// What an automation dispenses for.
#[derive(Clone, Copy, Debug, PartialEq, Eq, Structural)]
pub enum AutomationType {
    Watering,
    Fertilization,
    PestControl,
}

impl AutomationType {
    /// The text under which the variant is stored.
    pub open spec fn value(self) -> Seq<char> {
        match self {
            AutomationType::Watering => "Watering"@,
            AutomationType::Fertilization => "Fertilization"@,
            AutomationType::PestControl => "PestControl"@,
        }
    }

    /// Encodes the variant for storage.
    pub fn to_value(&self) -> (s: String)
        ensures
            s@ == self.value(),
    {
        match self {
            AutomationType::Watering => String::from_str("Watering"),
            AutomationType::Fertilization => String::from_str("Fertilization"),
            AutomationType::PestControl => String::from_str("PestControl"),
        }
    }

    /// Decodes a stored text: the variant stored under exactly that text, or
    /// `None` where there is none.
    pub fn try_from_value(text: &str) -> (r: Option<AutomationType>)
        ensures
            match r {
                Some(v) => v.value() == text@,
                None => forall|v: AutomationType| v.value() != text@,
            },
    {
        if same_text(text, "Watering") {
            Some(AutomationType::Watering)
        } else if same_text(text, "Fertilization") {
            Some(AutomationType::Fertilization)
        } else if same_text(text, "PestControl") {
            Some(AutomationType::PestControl)
        } else {
            None
        }
    }

    /// No two variants are stored under the same text, so decoding undoes
    /// encoding.
    pub proof fn lemma_value_injective(a: AutomationType, b: AutomationType)
        requires
            a.value() == b.value(),
        ensures
            a == b,
    {
        reveal_strlit("Watering");
        reveal_strlit("Fertilization");
        reveal_strlit("PestControl");
        assert("Watering"@.len() != "Fertilization"@.len());
        assert("Watering"@.len() != "PestControl"@.len());
        assert("Fertilization"@.len() != "PestControl"@.len());
    }
}

/// A stored rule that links a sensor and a threshold to a pump and a valve. It
/// is configuration only: nothing here evaluates it.
#[derive(Debug, PartialEq, Eq)]
pub struct Model {
    pub id: i32,
    pub name: String,
    pub automation_type: AutomationType,
    pub sensor_id: i32,
    pub sensor_value: Real,
    pub pump_id: i32,
    pub valve_id: i32,
    pub land_id: i32,
    pub dispense_amount: Real,
}

impl Clone for Model {
    fn clone(&self) -> (r: Self)
        ensures
            r == *self,
    {
        Model {
            id: self.id,
            name: self.name.clone(),
            automation_type: self.automation_type,
            sensor_id: self.sensor_id,
            sensor_value: self.sensor_value,
            pump_id: self.pump_id,
            valve_id: self.valve_id,
            land_id: self.land_id,
            dispense_amount: self.dispense_amount,
        }
    }
}

impl Row for Model {
    open spec fn table() -> Table {
        Table::Automation
    }

    open spec fn key(&self) -> int {
        self.id as int
    }

    open spec fn parent(&self, table: Table) -> Option<int> {
        match table {
            Table::Land => Some(self.land_id as int),
            Table::Sensor => Some(self.sensor_id as int),
            Table::Pump => Some(self.pump_id as int),
            Table::Valve => Some(self.valve_id as int),
            _ => None,
        }
    }

    open spec fn label(&self) -> Option<Seq<char>> {
        Some(self.name@)
    }

    open spec fn keyed(&self, id: int) -> Self {
        Model { id: id as i32, ..*self }
    }

    proof fn lemma_keyed(&self, id: int) {
    }

    fn id(&self) -> (id: i32) {
        self.id
    }

    fn parent_id(&self, table: Table) -> (p: Option<i32>) {
        match table {
            Table::Land => Some(self.land_id),
            Table::Sensor => Some(self.sensor_id),
            Table::Pump => Some(self.pump_id),
            Table::Valve => Some(self.valve_id),
            _ => None,
        }
    }

    fn is_named(&self, name: &str) -> (b: bool) {
        same_text(self.name.as_str(), name)
    }

    fn with_id(self, id: i32) -> (r: Self) {
        Model { id, ..self }
    }

    fn duplicate(&self) -> (r: Self) {
        self.clone()
    }
}

/// The relations of the `automation` table.
#[derive(Clone, Copy, Debug, PartialEq, Eq, Structural)]
pub enum Relation {
    Land,
    Sensor,
    Pump,
    Valve,
    AutomationHistory,
}

impl Relation {
    pub open spec fn def_spec(self) -> RelationDef {
        match self {
            Relation::Land => RelationDef {
                kind: RelationKind::BelongsTo,
                from_tbl: Table::Automation,
                to_tbl: Table::Land,
                on_update: Some(ForeignKeyAction::Cascade),
                on_delete: Some(ForeignKeyAction::Cascade),
            },
            Relation::Sensor => RelationDef {
                kind: RelationKind::BelongsTo,
                from_tbl: Table::Automation,
                to_tbl: Table::Sensor,
                on_update: None,
                on_delete: None,
            },
            Relation::Pump => RelationDef {
                kind: RelationKind::BelongsTo,
                from_tbl: Table::Automation,
                to_tbl: Table::Pump,
                on_update: None,
                on_delete: None,
            },
            Relation::Valve => RelationDef {
                kind: RelationKind::BelongsTo,
                from_tbl: Table::Automation,
                to_tbl: Table::Valve,
                on_update: None,
                on_delete: None,
            },
            Relation::AutomationHistory => RelationDef {
                kind: RelationKind::HasMany,
                from_tbl: Table::Automation,
                to_tbl: Table::AutomationHistory,
                on_update: None,
                on_delete: None,
            },
        }
    }

    /// The relation's definition. Where this table holds the reference, the
    /// definition gives the schema's foreign key with its action on delete.
    pub fn def(&self) -> (d: RelationDef)
        ensures
            d == self.def_spec(),
            d.kind == RelationKind::BelongsTo ==> reference(d.from_tbl, d.to_tbl) == Some(
                d.foreign_key().2,
            ),
            d.kind == RelationKind::HasMany ==> reference(d.to_tbl, d.from_tbl) is Some,
    {
        match self {
            Relation::Land => RelationDef {
                kind: RelationKind::BelongsTo,
                from_tbl: Table::Automation,
                to_tbl: Table::Land,
                on_update: Some(ForeignKeyAction::Cascade),
                on_delete: Some(ForeignKeyAction::Cascade),
            },
            Relation::Sensor => RelationDef {
                kind: RelationKind::BelongsTo,
                from_tbl: Table::Automation,
                to_tbl: Table::Sensor,
                on_update: None,
                on_delete: None,
            },
            Relation::Pump => RelationDef {
                kind: RelationKind::BelongsTo,
                from_tbl: Table::Automation,
                to_tbl: Table::Pump,
                on_update: None,
                on_delete: None,
            },
            Relation::Valve => RelationDef {
                kind: RelationKind::BelongsTo,
                from_tbl: Table::Automation,
                to_tbl: Table::Valve,
                on_update: None,
                on_delete: None,
            },
            Relation::AutomationHistory => RelationDef {
                kind: RelationKind::HasMany,
                from_tbl: Table::Automation,
                to_tbl: Table::AutomationHistory,
                on_update: None,
                on_delete: None,
            },
        }
    }
}

} // verus!
