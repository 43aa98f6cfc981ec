//! Handlers for the trigger history of automations.

use vstd::prelude::*;
use crate::clock::now;
use crate::handlers::{CreateNext, CreateStage, FindStage, LatestNext, ListNext, ListStage, Parent, Selection};
use crate::models::automation_history::Model;
use crate::response::{Reply, Status};
use crate::schema::Table;
use crate::values::Timestamp;

verus! {

/// What a request to record a firing carries.
#[derive(Debug, PartialEq, Eq)]
pub struct CreateAutoHistoryRequest {
    pub automation_id: i32,
}

/// The row that records a firing of the request's automation at the instant
/// `at`, before the store has given it a key.
pub open spec fn draft(form: CreateAutoHistoryRequest, at: Timestamp) -> Model {
    Model { id: 0, automation_id: form.automation_id, triggered_at: at }
}

/// Records a firing that happened at the instant `at`: inserts the row and
/// answers with the row as the store holds it.
pub fn create_automation_history_at(
    form: &CreateAutoHistoryRequest,
    at: Timestamp,
    stage: CreateStage<Model>,
) -> (next: CreateNext<Model, Model>)
    ensures
        match stage {
            CreateStage::Begin => next == CreateNext::<Model, Model>::Insert(draft(*form, at)),
            CreateStage::Inserted(Ok(row)) => next matches CreateNext::Reply(r) && r.is_data(None, row),
            CreateStage::Inserted(Err(e)) => next matches CreateNext::Reply(r) && r.is_error(
                Status::InternalServerError,
                e.report_spec(),
            ),
        },
{
    match stage {
        CreateStage::Begin => CreateNext::Insert(
            Model { id: 0, automation_id: form.automation_id, triggered_at: at },
        ),
        CreateStage::Inserted(Ok(row)) => CreateNext::Reply(Reply::data(row)),
        CreateStage::Inserted(Err(e)) => CreateNext::Reply(Reply::server_error(e.report())),
    }
}

/// Records a firing that happens now, by the local clock: inserts the row and
/// answers with the row as the store holds it.
pub fn create_automation_history(form: &CreateAutoHistoryRequest, stage: CreateStage<Model>) -> (next:
    CreateNext<Model, Model>)
    ensures
        match stage {
            CreateStage::Begin => exists|at: Timestamp|
                next == CreateNext::<Model, Model>::Insert(draft(*form, at)),
            CreateStage::Inserted(Ok(row)) => next matches CreateNext::Reply(r) && r.is_data(None, row),
            CreateStage::Inserted(Err(e)) => next matches CreateNext::Reply(r) && r.is_error(
                Status::InternalServerError,
                e.report_spec(),
            ),
        },
{
    let at = now();
    create_automation_history_at(form, at, stage)
}

/// Lists the firings of one automation, in the order of insertion.
pub fn get_history_by_automation(automation_id: i32, stage: ListStage<Model>) -> (next: ListNext<
    Vec<Model>,
>)
    ensures
        match stage {
            ListStage::Begin => next == ListNext::<Vec<Model>>::Select(
                Selection { parent: Some(Parent { table: Table::Automation, key: automation_id }) },
            ),
            ListStage::Listed(Ok(rows)) => next matches ListNext::Reply(r) && r.is_data(None, rows),
            ListStage::Listed(Err(e)) => next matches ListNext::Reply(r) && r.is_error(
                Status::InternalServerError,
                e.report_spec(),
            ),
        },
{
    match stage {
        ListStage::Begin => ListNext::Select(
            Selection { parent: Some(Parent { table: Table::Automation, key: automation_id }) },
        ),
        ListStage::Listed(Ok(rows)) => ListNext::Reply(Reply::data(rows)),
        ListStage::Listed(Err(e)) => ListNext::Reply(Reply::server_error(e.report())),
    }
}

/// Returns the newest firing of one automation. That there is none yet is a
/// success too, with an empty payload.
pub fn get_latest_history_by_automation(automation_id: i32, stage: FindStage<Model>) -> (next:
    LatestNext<Option<Model>>)
    ensures
        match stage {
            FindStage::Begin => next == LatestNext::<Option<Model>>::Newest(
                Parent { table: Table::Automation, key: automation_id },
            ),
            FindStage::Found(Ok(found)) => next matches LatestNext::Reply(r) && r.is_data(None, found),
            FindStage::Found(Err(e)) => next matches LatestNext::Reply(r) && r.is_error(
                Status::InternalServerError,
                e.report_spec(),
            ),
        },
{
    match stage {
        FindStage::Begin => LatestNext::Newest(Parent { table: Table::Automation, key: automation_id }),
        FindStage::Found(Ok(found)) => LatestNext::Reply(Reply::data(found)),
        FindStage::Found(Err(e)) => LatestNext::Reply(Reply::server_error(e.report())),
    }
}

} // verus!
