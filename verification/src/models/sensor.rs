//! Sensors and the kinds of measurement they take.

use vstd::prelude::*;
use vstd::string::StringExecFns;
use crate::schema::{reference, ForeignKeyAction, RelationDef, RelationKind, Row, Table};
use crate::values::same_text;

verus! {

/// What a sensor measures.
#[derive(Clone, Copy, Debug, PartialEq, Eq, Structural)]
pub enum SensorType {
    Temperature,
    Humidity,
    SoilMoisture,
    PH,
    LightIntensity,
}

impl SensorType {
    /// The text under which the variant is stored.
    pub open spec fn value(self) -> Seq<char> {
        match self {
            SensorType::Temperature => "Temperature"@,
            SensorType::Humidity => "Humidity"@,
            SensorType::SoilMoisture => "SoilMoisture"@,
            SensorType::PH => "PH"@,
            SensorType::LightIntensity => "LightIntensity"@,
        }
    }

    /// Encodes the variant for storage.
    pub fn to_value(&self) -> (s: String)
        ensures
            s@ == self.value(),
    {
        match self {
            SensorType::Temperature => String::from_str("Temperature"),
            SensorType::Humidity => String::from_str("Humidity"),
            SensorType::SoilMoisture => String::from_str("SoilMoisture"),
            SensorType::PH => String::from_str("PH"),
            SensorType::LightIntensity => String::from_str("LightIntensity"),
        }
    }

    /// Decodes a stored text: the variant stored under exactly that text, or
    /// `None` where there is none.
    pub fn try_from_value(text: &str) -> (r: Option<SensorType>)
        ensures
            match r {
                Some(v) => v.value() == text@,
                None => forall|v: SensorType| v.value() != text@,
            },
    {
        if same_text(text, "Temperature") {
            Some(SensorType::Temperature)
        } else if same_text(text, "Humidity") {
            Some(SensorType::Humidity)
        } else if same_text(text, "SoilMoisture") {
            Some(SensorType::SoilMoisture)
        } else if same_text(text, "PH") {
            Some(SensorType::PH)
        } else if same_text(text, "LightIntensity") {
            Some(SensorType::LightIntensity)
        } else {
            None
        }
    }

    /// No two variants are stored under the same text, so decoding undoes
    /// encoding.
    pub proof fn lemma_value_injective(a: SensorType, b: SensorType)
        requires
            a.value() == b.value(),
        ensures
            a == b,
    {
        reveal_strlit("Temperature");
        reveal_strlit("Humidity");
        reveal_strlit("SoilMoisture");
        reveal_strlit("PH");
        reveal_strlit("LightIntensity");
        assert("Temperature"@.len() != "Humidity"@.len());
        assert("Temperature"@.len() != "SoilMoisture"@.len());
        assert("Temperature"@.len() != "PH"@.len());
        assert("Temperature"@.len() != "LightIntensity"@.len());
        assert("Humidity"@.len() != "SoilMoisture"@.len());
        assert("Humidity"@.len() != "PH"@.len());
        assert("Humidity"@.len() != "LightIntensity"@.len());
        assert("SoilMoisture"@.len() != "PH"@.len());
        assert("SoilMoisture"@.len() != "LightIntensity"@.len());
        assert("PH"@.len() != "LightIntensity"@.len());
    }
}

/// A sensor installed on a land plot.
#[derive(Debug, PartialEq, Eq)]
pub struct Model {
    pub id: i32,
    pub name: String,
    pub sensor_type: SensorType,
    pub land_id: i32,
}

impl Clone for Model {
    fn clone(&self) -> (r: Self)
        ensures
            r == *self,
    {
        Model {
            id: self.id,
            name: self.name.clone(),
            sensor_type: self.sensor_type,
            land_id: self.land_id,
        }
    }
}

impl Row for Model {
    open spec fn table() -> Table {
        Table::Sensor
    }

    open spec fn key(&self) -> int {
        self.id as int
    }

    open spec fn parent(&self, table: Table) -> Option<int> {
        match table {
            Table::Land => Some(self.land_id as int),
            _ => None,
        }
    }

    open spec fn label(&self) -> Option<Seq<char>> {
        Some(self.name@)
    }

    open spec fn keyed(&self, id: int) -> Self {
        Model { id: id as i32, ..*self }
    }

    proof fn lemma_keyed(&self, id: int) {
    }

    fn id(&self) -> (id: i32) {
        self.id
    }

    fn parent_id(&self, table: Table) -> (p: Option<i32>) {
        match table {
            Table::Land => Some(self.land_id),
            _ => None,
        }
    }

    fn is_named(&self, name: &str) -> (b: bool) {
        same_text(self.name.as_str(), name)
    }

    fn with_id(self, id: i32) -> (r: Self) {
        Model { id, ..self }
    }

    fn duplicate(&self) -> (r: Self) {
        self.clone()
    }
}

/// The relations of the `sensor` table.
#[derive(Clone, Copy, Debug, PartialEq, Eq, Structural)]
pub enum Relation {
    Land,
    SensorHistory,
}

impl Relation {
    pub open spec fn def_spec(self) -> RelationDef {
        match self {
            Relation::Land => RelationDef {
                kind: RelationKind::BelongsTo,
                from_tbl: Table::Sensor,
                to_tbl: Table::Land,
                on_update: Some(ForeignKeyAction::Cascade),
                on_delete: Some(ForeignKeyAction::Cascade),
            },
            Relation::SensorHistory => RelationDef {
                kind: RelationKind::HasMany,
                from_tbl: Table::Sensor,
                to_tbl: Table::SensorHistory,
                on_update: None,
                on_delete: None,
            },
        }
    }

    /// The relation's definition. Where this table holds the reference, the
    /// definition gives the schema's foreign key with its action on delete.
    pub fn def(&self) -> (d: RelationDef)
        ensures
            d == self.def_spec(),
            d.kind == RelationKind::BelongsTo ==> reference(d.from_tbl, d.to_tbl) == Some(
                d.foreign_key().2,
            ),
            d.kind == RelationKind::HasMany ==> reference(d.to_tbl, d.from_tbl) is Some,
    {
        match self {
            Relation::Land => RelationDef {
                kind: RelationKind::BelongsTo,
                from_tbl: Table::Sensor,
                to_tbl: Table::Land,
                on_update: Some(ForeignKeyAction::Cascade),
                on_delete: Some(ForeignKeyAction::Cascade),
            },
            Relation::SensorHistory => RelationDef {
                kind: RelationKind::HasMany,
                from_tbl: Table::Sensor,
                to_tbl: Table::SensorHistory,
                on_update: None,
                on_delete: None,
            },
        }
    }
}

} // verus!
