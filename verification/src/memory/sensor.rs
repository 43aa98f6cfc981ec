//! Handlers for sensors, run against the in-memory store.

use vstd::prelude::*;
use vstd::pervasive::unreached;
use crate::handlers::sensor;
use crate::handlers::{CreateNext, CreateStage, DeleteNext, DeleteStage, FindNext, FindStage, ListNext, ListStage, Parent, UpdateNext, UpdateStage};
use crate::models::sensor::Model;
use crate::response::{Reply, Status};
use crate::schema::{Row, Table};
use crate::store::rows::{lookup, selected};
use crate::store::Store;

verus! {

/// Lists all sensors, in the order of insertion: the reply carries copies of
/// exactly those rows.
pub fn get_sensors(store: &Store) -> (reply: Reply<Vec<Model>>)
    ensures
        reply.has_data(None),
        reply.payload()@ == selected(store.sensors.rows@, None),
{
    match sensor::get_sensors(ListStage::Begin) {
        ListNext::Select(selection) => {
            let rows = store.sensors.select(selection.parent);
            match sensor::get_sensors(ListStage::Listed(Ok(rows))) {
                ListNext::Reply(reply) => reply,
                ListNext::Select(_) => unreached(),
            }
        },
        ListNext::Reply(_) => unreached(),
    }
}

/// Lists the sensors of one land plot, in the order of insertion: the reply
/// carries copies of exactly those rows.
pub fn get_land_sensors(store: &Store, land_id: i32) -> (reply: Reply<Vec<Model>>)
    ensures
        reply.has_data(None),
        reply.payload()@ == selected(store.sensors.rows@, Some(Parent { table: Table::Land, key: land_id })),
{
    match sensor::get_land_sensors(land_id, ListStage::Begin) {
        ListNext::Select(selection) => {
            let rows = store.sensors.select(selection.parent);
            match sensor::get_land_sensors(land_id, ListStage::Listed(Ok(rows))) {
                ListNext::Reply(reply) => reply,
                ListNext::Select(_) => unreached(),
            }
        },
        ListNext::Reply(_) => unreached(),
    }
}

/// Returns the sensor that the key looks up, or answers that there is none.
pub fn get_sensor_by_id(store: &Store, id: i32) -> (reply: Reply<Model>)
    requires
        store.wf(),
    ensures
        match lookup(store.sensors.rows@, id as int) {
            Some(row) => reply.is_data(None, row),
            None => reply.is_error(Status::NotFound, "Sensor not found"@),
        },
{
    match sensor::get_sensor_by_id(id, FindStage::Begin) {
        FindNext::Find(key) => {
            let found = store.sensors.get(key);
            match sensor::get_sensor_by_id(id, FindStage::Found(Ok(found))) {
                FindNext::Reply(reply) => reply,
                FindNext::Find(_) => unreached(),
            }
        },
        FindNext::Reply(_) => unreached(),
    }
}

/// Deletes a sensor and the rows that follow it. The reply is a success only if
/// the row existed and the store removed it; where there is no such row the
/// reply says so, where the store refuses the delete the reply is a failure,
/// and either way nothing has changed.
pub fn delete_sensor(store: &mut Store, id: i32) -> (reply: Reply<()>)
    requires
        old(store).wf(),
    ensures
        final(store).wf(),
        if !old(store).has(Table::Sensor, id as int) {
            reply.is_error(Status::NotFound, "Sensor not found"@) && final(store).same(old(store))
        } else if old(store).blocked(Table::Sensor, id as int) {
            &&& reply.status == Status::InternalServerError
            &&& !reply.success_spec()
            &&& final(store).same(old(store))
        } else {
            &&& reply.is_done(Some("Sensor deleted successfully"@))
            &&& final(store).deleted(old(store), Table::Sensor, id as int)
        },
{
    match sensor::delete_sensor(id, DeleteStage::Begin) {
        DeleteNext::Find(key) => {
            let found = store.sensors.get(key);
            match sensor::delete_sensor(id, DeleteStage::Found(Ok(found))) {
                DeleteNext::Delete(row) => {
                    let outcome = store.delete(Table::Sensor, row.id);
                    match sensor::delete_sensor(id, DeleteStage::Deleted(outcome)) {
                        DeleteNext::Reply(reply) => reply,
                        _ => unreached(),
                    }
                },
                DeleteNext::Reply(reply) => reply,
                DeleteNext::Find(_) => unreached(),
            }
        },
        _ => unreached(),
    }
}

/// Creates a sensor. A request whose type is not known is rejected and nothing
/// changes. Otherwise, where the store takes the row, the reply carries it
/// under its new key, it is the last row of its table and the row that its key
/// looks up, and nothing else has changed; where the store refuses it, the
/// reply is a failure and nothing has changed.
pub fn create_sensor(store: &mut Store, form: &sensor::CreateSensorRequest) -> (reply: Reply<Model>)
    requires
        old(store).wf(),
    ensures
        final(store).wf(),
        match sensor::named_type(form.sensor_type@) {
            None => reply.is_error(Status::BadRequest, sensor::invalid_type(form.sensor_type@))
                && final(store).same(old(store)),
            Some(t) => if old(store).admits_sensor(sensor::draft(*form, t)) {
                let row = sensor::draft(*form, t).keyed(old(store).sensors.next as int);
                &&& reply.is_data(Some("Sensor created successfully"@), row)
                &&& final(store).sensors.rows@ == old(store).sensors.rows@.push(row)
                &&& final(store).sensors.next == old(store).sensors.next + 1
                &&& lookup(final(store).sensors.rows@, row.key()) == Some(row)
                &&& final(store).same_but(old(store), Table::Sensor)
            } else {
                &&& reply.status == Status::InternalServerError
                &&& !reply.success_spec()
                &&& final(store).same(old(store))
            },
        },
{
    match sensor::create_sensor(form, CreateStage::Begin) {
        CreateNext::Insert(row) => {
            let outcome = store.insert_sensor(row);
            match sensor::create_sensor(form, CreateStage::Inserted(outcome)) {
                CreateNext::Reply(reply) => reply,
                CreateNext::Insert(_) => unreached(),
            }
        },
        CreateNext::Reply(reply) => reply,
    }
}

/// The sensor type that a change request names: `Some(None)` where it names
/// none, `Some(Some(t))` where it names the known type `t`, and `None` where it
/// names a type that is not known.
pub open spec fn requested_type(form: sensor::UpdateSensorRequest) -> Option<
    Option<crate::models::sensor::SensorType>,
> {
    match form.sensor_type {
        None => Some(None),
        Some(text) => match sensor::named_type(text@) {
            Some(t) => Some(Some(t)),
            None => None,
        },
    }
}

/// Changes a sensor. Where there is no such row the reply says so; a request
/// whose type is not known is rejected; where the store refuses the change the
/// reply is a failure; in all these cases nothing has changed. Otherwise the
/// reply carries the changed row, it stands in the place of the stored row, and
/// no other row has changed.
pub fn update_sensor(store: &mut Store, id: i32, form: &sensor::UpdateSensorRequest) -> (reply:
    Reply<Model>)
    requires
        old(store).wf(),
    ensures
        final(store).wf(),
        match lookup(old(store).sensors.rows@, id as int) {
            None => reply.is_error(Status::NotFound, "Sensor not found"@) && final(store).same(
                old(store),
            ),
            Some(stored) => match requested_type(*form) {
                None => reply.is_error(
                    Status::BadRequest,
                    sensor::invalid_type(form.sensor_type->0@),
                ) && final(store).same(old(store)),
                Some(t) => {
                    let row = sensor::patched(stored, *form, t);
                    if old(store).permits_sensor(row) {
                        &&& reply.is_data(Some("Sensor updated successfully"@), row)
                        &&& lookup(final(store).sensors.rows@, row.key()) == Some(row)
                        &&& final(store).sensors.rows@.len() == old(store).sensors.rows@.len()
                        &&& forall|i: int|
                            0 <= i < old(store).sensors.rows@.len() ==> #[trigger] final(store).sensors.rows@[i] == if old(store).sensors.rows@[i].key()
                                == row.key() {
                                row
                            } else {
                                old(store).sensors.rows@[i]
                            }
                        &&& final(store).sensors.next == old(store).sensors.next
                        &&& final(store).same_but(old(store), Table::Sensor)
                    } else {
                        &&& reply.status == Status::InternalServerError
                        &&& !reply.success_spec()
                        &&& final(store).same(old(store))
                    }
                },
            },
        },
{
    match sensor::update_sensor(id, form, UpdateStage::Begin) {
        UpdateNext::Find(key) => {
            let found = store.sensors.get(key);
            match sensor::update_sensor(id, form, UpdateStage::Found(Ok(found))) {
                UpdateNext::Save(row) => {
                    let outcome = store.update_sensor(row);
                    match sensor::update_sensor(id, form, UpdateStage::Saved(outcome)) {
                        UpdateNext::Reply(reply) => reply,
                        _ => unreached(),
                    }
                },
                UpdateNext::Reply(reply) => reply,
                UpdateNext::Find(_) => unreached(),
            }
        },
        _ => unreached(),
    }
}

} // verus!
