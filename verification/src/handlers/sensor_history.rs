//! Handlers for sensor readings.

use vstd::prelude::*;
use crate::handlers::{FindStage, LatestNext, ListNext, ListStage, Parent, Selection};
use crate::models::sensor_history::Model;
use crate::response::{Reply, Status};
use crate::schema::Table;
use crate::values::Real;

verus! {

/// What a request to record a reading carries.
#[derive(Debug, PartialEq, Eq)]
pub struct CreateHistoryRequest {
    pub sensor_id: i32,
    pub value: Real,
}

/// Lists the readings of one sensor, in the order of insertion.
pub fn get_history_by_sensor(sensor_id: i32, stage: ListStage<Model>) -> (next: ListNext<Vec<Model>>)
    ensures
        match stage {
            ListStage::Begin => next == ListNext::<Vec<Model>>::Select(
                Selection { parent: Some(Parent { table: Table::Sensor, key: sensor_id }) },
            ),
            ListStage::Listed(Ok(rows)) => next matches ListNext::Reply(r) && r.is_data(None, rows),
            ListStage::Listed(Err(e)) => next matches ListNext::Reply(r) && r.is_error(
                Status::InternalServerError,
                e.report_spec(),
            ),
        },
{
    match stage {
        ListStage::Begin => ListNext::Select(
            Selection { parent: Some(Parent { table: Table::Sensor, key: sensor_id }) },
        ),
        ListStage::Listed(Ok(rows)) => ListNext::Reply(Reply::data(rows)),
        ListStage::Listed(Err(e)) => ListNext::Reply(Reply::server_error(e.report())),
    }
}

/// Returns the newest reading of one sensor, or answers that nothing has been
/// recorded yet.
pub fn get_latest_history_by_sensor(sensor_id: i32, stage: FindStage<Model>) -> (next: LatestNext<Model>)
    ensures
        match stage {
            FindStage::Begin => next == LatestNext::<Model>::Newest(
                Parent { table: Table::Sensor, key: sensor_id },
            ),
            FindStage::Found(Ok(Some(row))) => next matches LatestNext::Reply(r) && r.is_data(None, row),
            FindStage::Found(Ok(None)) => next matches LatestNext::Reply(r) && r.is_error(
                Status::NotFound,
                "No data recorded yet"@,
            ),
            FindStage::Found(Err(e)) => next matches LatestNext::Reply(r) && r.is_error(
                Status::InternalServerError,
                e.report_spec(),
            ),
        },
{
    match stage {
        FindStage::Begin => LatestNext::Newest(Parent { table: Table::Sensor, key: sensor_id }),
        FindStage::Found(Ok(Some(row))) => LatestNext::Reply(Reply::data(row)),
        FindStage::Found(Ok(None)) => LatestNext::Reply(Reply::not_found("No data recorded yet")),
        FindStage::Found(Err(e)) => LatestNext::Reply(Reply::server_error(e.report())),
    }
}

} // verus!
