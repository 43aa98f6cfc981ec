//! Handlers for notifications.

use vstd::prelude::*;
use crate::handlers::{ListNext, ListStage, Parent, Selection};
use crate::models::notification::Model;
use crate::response::{Reply, Status};
use crate::schema::Table;

verus! {

/// Lists the notifications of one user, in the order of insertion.
pub fn get_notifications_by_user(user_id: i32, stage: ListStage<Model>) -> (next: ListNext<Vec<Model>>)
    ensures
        match stage {
            ListStage::Begin => next == ListNext::<Vec<Model>>::Select(
                Selection { parent: Some(Parent { table: Table::User, key: user_id })},
            ),
            ListStage::Listed(Ok(rows)) => next matches ListNext::Reply(r) && r.is_data(None, rows),
            ListStage::Listed(Err(e)) => next matches ListNext::Reply(r) && r.is_error(
                Status::InternalServerError,
                e.display@,
            ),
        },
{
    match stage {
        ListStage::Begin => ListNext::Select(Selection { parent: Some(Parent { table: Table::User, key: user_id })}),
        ListStage::Listed(Ok(rows)) => ListNext::Reply(Reply::data(rows)),
        ListStage::Listed(Err(e)) => ListNext::Reply(Reply::server_error(e.to_string())),
    }
}

/// Lists all notifications, in the order of insertion.
pub fn get_all_notifications(stage: ListStage<Model>) -> (next: ListNext<Vec<Model>>)
    ensures
        match stage {
            ListStage::Begin => next == ListNext::<Vec<Model>>::Select(
                Selection { parent: None},
            ),
            ListStage::Listed(Ok(rows)) => next matches ListNext::Reply(r) && r.is_data(None, rows),
            ListStage::Listed(Err(e)) => next matches ListNext::Reply(r) && r.is_error(
                Status::InternalServerError,
                e.display@,
            ),
        },
{
    match stage {
        ListStage::Begin => ListNext::Select(Selection { parent: None}),
        ListStage::Listed(Ok(rows)) => ListNext::Reply(Reply::data(rows)),
        ListStage::Listed(Err(e)) => ListNext::Reply(Reply::server_error(e.to_string())),
    }
}

} // verus!
