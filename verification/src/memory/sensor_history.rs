//! Handlers for sensor readings, run against the in-memory store.

use vstd::prelude::*;
use vstd::pervasive::unreached;
use crate::handlers::sensor_history;
use crate::handlers::{FindStage, LatestNext, ListNext, ListStage, Parent};
use crate::models::sensor_history::Model;
use crate::response::{Reply, Status};
use crate::schema::Table;
use crate::store::rows::{latest, newest, selected, under};
use crate::store::Store;

verus! {

/// Lists the readings of one sensor, in the order of insertion: the reply
/// carries copies of exactly those rows.
pub fn get_history_by_sensor(store: &Store, sensor_id: i32) -> (reply: Reply<Vec<Model>>)
    ensures
        reply.has_data(None),
        reply.payload()@ == selected(
            store.sensor_histories.rows@,
            Some(Parent { table: Table::Sensor, key: sensor_id }),
        ),
{
    match sensor_history::get_history_by_sensor(sensor_id, ListStage::Begin) {
        ListNext::Select(selection) => {
            let rows = store.sensor_histories.select(selection.parent);
            match sensor_history::get_history_by_sensor(sensor_id, ListStage::Listed(Ok(rows))) {
                ListNext::Reply(reply) => reply,
                ListNext::Select(_) => unreached(),
            }
        },
        ListNext::Reply(_) => unreached(),
    }
}

/// Returns the newest reading of one sensor: a reading of that sensor that no
/// reading of it lies after in time. Where the sensor has no reading the reply
/// says so.
pub fn get_latest_history_by_sensor(store: &Store, sensor_id: i32) -> (reply: Reply<Model>)
    ensures
        ({
            let parent = Some(Parent { table: Table::Sensor, key: sensor_id });
            if selected(store.sensor_histories.rows@, parent).len() == 0 {
                reply.is_error(Status::NotFound, "No data recorded yet"@)
            } else {
                &&& reply.has_data(None)
                &&& store.sensor_histories.rows@.contains(reply.payload())
                &&& under(reply.payload(), parent)
                &&& latest(selected(store.sensor_histories.rows@, parent), reply.payload())
            }
        }),
{
    match sensor_history::get_latest_history_by_sensor(sensor_id, FindStage::Begin) {
        LatestNext::Newest(parent) => {
            let found = newest(&store.sensor_histories.rows, parent);
            match sensor_history::get_latest_history_by_sensor(
                sensor_id,
                FindStage::Found(Ok(found)),
            ) {
                LatestNext::Reply(reply) => reply,
                LatestNext::Newest(_) => unreached(),
            }
        },
        LatestNext::Reply(_) => unreached(),
    }
}

} // verus!
