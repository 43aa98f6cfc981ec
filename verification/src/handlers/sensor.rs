//! Handlers for sensors. A sensor's type arrives as text and is accepted only
//! if it names one of the known types.

use vstd::prelude::*;
use vstd::string::StringExecFns;
use crate::handlers::{CreateNext, CreateStage, DeleteNext, DeleteStage, FindNext, FindStage, ListNext, ListStage, Parent, Selection, UpdateNext, UpdateStage};
use crate::models::sensor::{Model, SensorType};
use crate::response::{Reply, Status};
use crate::schema::Table;

verus! {

/// What a request to create a sensor carries.
#[derive(Debug, PartialEq, Eq)]
pub struct CreateSensorRequest {
    pub name: String,
    pub sensor_type: String,
    pub land_id: i32,
}

/// What a request to change a sensor carries. A field that is absent keeps its
/// stored value.
#[derive(Debug, PartialEq, Eq)]
pub struct UpdateSensorRequest {
    pub name: Option<String>,
    pub sensor_type: Option<String>,
}

/// The sensor type that a text names, if it names one.
pub open spec fn named_type(text: Seq<char>) -> Option<SensorType> {
    if text == SensorType::Temperature.value() {
        Some(SensorType::Temperature)
    } else if text == SensorType::Humidity.value() {
        Some(SensorType::Humidity)
    } else if text == SensorType::SoilMoisture.value() {
        Some(SensorType::SoilMoisture)
    } else if text == SensorType::PH.value() {
        Some(SensorType::PH)
    } else if text == SensorType::LightIntensity.value() {
        Some(SensorType::LightIntensity)
    } else {
        None
    }
}

/// The message that rejects a text as a sensor type.
pub open spec fn invalid_type(text: Seq<char>) -> Seq<char> {
    "Invalid sensor type: "@ + text
}

/// Reads a sensor type: the type whose name is exactly `type_str`, or the
/// message that rejects the text.
pub fn parse_sensor_type(type_str: &str) -> (r: Result<SensorType, String>)
    ensures
        match r {
            Ok(t) => named_type(type_str@) == Some(t),
            Err(message) => named_type(type_str@) is None && message@ == invalid_type(type_str@),
        },
{
    match SensorType::try_from_value(type_str) {
        Some(t) => {
            proof {
                if named_type(type_str@) != Some(t) {
                    let other = named_type(type_str@)->0;
                    SensorType::lemma_value_injective(other, t);
                }
            }
            Ok(t)
        },
        None => Err(String::from_str("Invalid sensor type: ").concat(type_str)),
    }
}

/// The row that a create request describes once its type has been read, before
/// the store has given it a key.
pub open spec fn draft(form: CreateSensorRequest, sensor_type: SensorType) -> Model {
    Model { id: 0, name: form.name, sensor_type, land_id: form.land_id }
}

/// Creates a sensor: rejects a request whose type is not known, without asking
/// anything of the store; otherwise inserts the row and answers with the row as
/// the store holds it.
pub fn create_sensor(form: &CreateSensorRequest, stage: CreateStage<Model>) -> (next: CreateNext<
    Model,
    Model,
>)
    ensures
        match stage {
            CreateStage::Begin => match named_type(form.sensor_type@) {
                Some(t) => next == CreateNext::<Model, Model>::Insert(draft(*form, t)),
                None => next matches CreateNext::Reply(r) && r.is_error(
                    Status::BadRequest,
                    invalid_type(form.sensor_type@),
                ),
            },
            CreateStage::Inserted(Ok(row)) => next matches CreateNext::Reply(r) && r.is_data(
                Some("Sensor created successfully"@),
                row,
            ),
            CreateStage::Inserted(Err(e)) => next matches CreateNext::Reply(r) && r.is_error(
                Status::InternalServerError,
                e.report_spec(),
            ),
        },
{
    match stage {
        CreateStage::Begin => match parse_sensor_type(form.sensor_type.as_str()) {
            Ok(t) => CreateNext::Insert(
                Model { id: 0, name: form.name.clone(), sensor_type: t, land_id: form.land_id },
            ),
            Err(message) => CreateNext::Reply(Reply::bad_request(message)),
        },
        CreateStage::Inserted(Ok(row)) => CreateNext::Reply(
            Reply::data_with("Sensor created successfully", row),
        ),
        CreateStage::Inserted(Err(e)) => CreateNext::Reply(Reply::server_error(e.report())),
    }
}

/// Lists all sensors, in the order of insertion.
pub fn get_sensors(stage: ListStage<Model>) -> (next: ListNext<Vec<Model>>)
    ensures
        match stage {
            ListStage::Begin => next == ListNext::<Vec<Model>>::Select(
                Selection { parent: None },
            ),
            ListStage::Listed(Ok(rows)) => next matches ListNext::Reply(r) && r.is_data(None, rows),
            ListStage::Listed(Err(e)) => next matches ListNext::Reply(r) && r.is_error(
                Status::InternalServerError,
                e.report_spec(),
            ),
        },
{
    match stage {
        ListStage::Begin => ListNext::Select(Selection { parent: None }),
        ListStage::Listed(Ok(rows)) => ListNext::Reply(Reply::data(rows)),
        ListStage::Listed(Err(e)) => ListNext::Reply(Reply::server_error(e.report())),
    }
}

/// Lists the sensors of one land plot, in the order of insertion.
pub fn get_land_sensors(land_id: i32, stage: ListStage<Model>) -> (next: ListNext<Vec<Model>>)
    ensures
        match stage {
            ListStage::Begin => next == ListNext::<Vec<Model>>::Select(
                Selection { parent: Some(Parent { table: Table::Land, key: land_id }) },
            ),
            ListStage::Listed(Ok(rows)) => next matches ListNext::Reply(r) && r.is_data(None, rows),
            ListStage::Listed(Err(e)) => next matches ListNext::Reply(r) && r.is_error(
                Status::InternalServerError,
                e.report_spec(),
            ),
        },
{
    match stage {
        ListStage::Begin => ListNext::Select(
            Selection { parent: Some(Parent { table: Table::Land, key: land_id }) },
        ),
        ListStage::Listed(Ok(rows)) => ListNext::Reply(Reply::data(rows)),
        ListStage::Listed(Err(e)) => ListNext::Reply(Reply::server_error(e.report())),
    }
}

/// Returns the sensor with the given key, or answers that there is none.
pub fn get_sensor_by_id(id: i32, stage: FindStage<Model>) -> (next: FindNext<Model>)
    ensures
        match stage {
            FindStage::Begin => next == FindNext::<Model>::Find(id),
            FindStage::Found(Ok(Some(row))) => next matches FindNext::Reply(r) && r.is_data(None, row),
            FindStage::Found(Ok(None)) => next matches FindNext::Reply(r) && r.is_error(
                Status::NotFound,
                "Sensor not found"@,
            ),
            FindStage::Found(Err(e)) => next matches FindNext::Reply(r) && r.is_error(
                Status::InternalServerError,
                e.report_spec(),
            ),
        },
{
    match stage {
        FindStage::Begin => FindNext::Find(id),
        FindStage::Found(Ok(Some(row))) => FindNext::Reply(Reply::data(row)),
        FindStage::Found(Ok(None)) => FindNext::Reply(Reply::not_found("Sensor not found")),
        FindStage::Found(Err(e)) => FindNext::Reply(Reply::server_error(e.report())),
    }
}

/// The stored row after a change request has been applied to it, where
/// `sensor_type` is the type that the request's text names if it carries one:
/// each field that the request carries takes the request's value, every other
/// field keeps its own.
pub open spec fn patched(stored: Model, form: UpdateSensorRequest, sensor_type: Option<SensorType>) -> Model {
    Model {
        id: stored.id,
        name: match form.name {
            Some(v) => v,
            None => stored.name,
        },
        sensor_type: match sensor_type {
            Some(t) => t,
            None => stored.sensor_type,
        },
        land_id: stored.land_id,
    }
}

/// Changes a sensor: looks the row up, rejects a request whose type is not
/// known, otherwise applies the request, writes the row back and answers with
/// the row as the store holds it.
pub fn update_sensor(id: i32, form: &UpdateSensorRequest, stage: UpdateStage<Model>) -> (next: UpdateNext<
    Model,
    Model,
>)
    ensures
        match stage {
            UpdateStage::Begin => next == UpdateNext::<Model, Model>::Find(id),
            UpdateStage::Found(Ok(Some(stored))) => match form.sensor_type {
                Some(text) => match named_type(text@) {
                    Some(t) => next == UpdateNext::<Model, Model>::Save(
                        patched(stored, *form, Some(t)),
                    ),
                    None => next matches UpdateNext::Reply(r) && r.is_error(
                        Status::BadRequest,
                        invalid_type(text@),
                    ),
                },
                None => next == UpdateNext::<Model, Model>::Save(patched(stored, *form, None)),
            },
            UpdateStage::Found(Ok(None)) => next matches UpdateNext::Reply(r) && r.is_error(
                Status::NotFound,
                "Sensor not found"@,
            ),
            UpdateStage::Found(Err(e)) => next matches UpdateNext::Reply(r) && r.is_error(
                Status::InternalServerError,
                e.report_spec(),
            ),
            UpdateStage::Saved(Ok(row)) => next matches UpdateNext::Reply(r) && r.is_data(
                Some("Sensor updated successfully"@),
                row,
            ),
            UpdateStage::Saved(Err(e)) => next matches UpdateNext::Reply(r) && r.is_error(
                Status::InternalServerError,
                e.report_spec(),
            ),
        },
{
    match stage {
        UpdateStage::Begin => UpdateNext::Find(id),
        UpdateStage::Found(Ok(Some(stored))) => {
            let name = match &form.name {
                Some(v) => v.clone(),
                None => stored.name,
            };
            match &form.sensor_type {
                Some(text) => match parse_sensor_type(text.as_str()) {
                    Ok(t) => UpdateNext::Save(
                        Model { id: stored.id, name, sensor_type: t, land_id: stored.land_id },
                    ),
                    Err(message) => UpdateNext::Reply(Reply::bad_request(message)),
                },
                None => UpdateNext::Save(
                    Model {
                        id: stored.id,
                        name,
                        sensor_type: stored.sensor_type,
                        land_id: stored.land_id,
                    },
                ),
            }
        },
        UpdateStage::Found(Ok(None)) => UpdateNext::Reply(Reply::not_found("Sensor not found")),
        UpdateStage::Found(Err(e)) => UpdateNext::Reply(Reply::server_error(e.report())),
        UpdateStage::Saved(Ok(row)) => UpdateNext::Reply(
            Reply::data_with("Sensor updated successfully", row),
        ),
        UpdateStage::Saved(Err(e)) => UpdateNext::Reply(Reply::server_error(e.report())),
    }
}

/// Deletes a sensor: looks the row up, deletes it and answers with success
/// only if the store removed a row.
pub fn delete_sensor(id: i32, stage: DeleteStage<Model>) -> (next: DeleteNext<Model, ()>)
    ensures
        match stage {
            DeleteStage::Begin => next == DeleteNext::<Model, ()>::Find(id),
            DeleteStage::Found(Ok(Some(row))) => next == DeleteNext::<Model, ()>::Delete(row),
            DeleteStage::Found(Ok(None)) => next matches DeleteNext::Reply(r) && r.is_error(
                Status::NotFound,
                "Sensor not found"@,
            ),
            DeleteStage::Found(Err(e)) => next matches DeleteNext::Reply(r) && r.is_error(
                Status::InternalServerError,
                e.report_spec(),
            ),
            DeleteStage::Deleted(Ok(n)) => next matches DeleteNext::Reply(r) && if n > 0 {
                r.is_done(Some("Sensor deleted successfully"@))
            } else {
                r.is_error(Status::NotFound, "Sensor not found or already deleted"@)
            },
            DeleteStage::Deleted(Err(e)) => next matches DeleteNext::Reply(r) && r.is_error(
                Status::InternalServerError,
                e.report_spec(),
            ),
        },
{
    match stage {
        DeleteStage::Begin => DeleteNext::Find(id),
        DeleteStage::Found(Ok(Some(row))) => DeleteNext::Delete(row),
        DeleteStage::Found(Ok(None)) => DeleteNext::Reply(Reply::not_found("Sensor not found")),
        DeleteStage::Found(Err(e)) => DeleteNext::Reply(Reply::server_error(e.report())),
        DeleteStage::Deleted(Ok(n)) => if n > 0 {
            DeleteNext::Reply(Reply::done_with("Sensor deleted successfully"))
        } else {
            DeleteNext::Reply(Reply::not_found("Sensor not found or already deleted"))
        },
        DeleteStage::Deleted(Err(e)) => DeleteNext::Reply(Reply::server_error(e.report())),
    }
}

} // verus!
