//! Handlers for notifications, run against the in-memory store.

use vstd::prelude::*;
use vstd::pervasive::unreached;
use crate::handlers::notification;
use crate::handlers::{ListNext, ListStage, Parent};
use crate::models::notification::Model;
use crate::response::Reply;
use crate::schema::Table;
use crate::store::rows::selected;
use crate::store::Store;

verus! {

/// Lists the notifications of one user, in the order of insertion: the reply
/// carries copies of exactly those rows.
pub fn get_notifications_by_user(store: &Store, user_id: i32) -> (reply: Reply<Vec<Model>>)
    ensures
        reply.has_data(None),
        reply.payload()@ == selected(store.notifications.rows@, Some(Parent { table: Table::User, key: user_id })),
{
    match notification::get_notifications_by_user(user_id, ListStage::Begin) {
        ListNext::Select(selection) => {
            let rows = store.notifications.select(selection.parent);
            match notification::get_notifications_by_user(user_id, ListStage::Listed(Ok(rows))) {
                ListNext::Reply(reply) => reply,
                ListNext::Select(_) => unreached(),
            }
        },
        ListNext::Reply(_) => unreached(),
    }
}

/// Lists all notifications, in the order of insertion: the reply carries copies
/// of exactly those rows.
pub fn get_all_notifications(store: &Store) -> (reply: Reply<Vec<Model>>)
    ensures
        reply.has_data(None),
        reply.payload()@ == selected(store.notifications.rows@, None),
{
    match notification::get_all_notifications(ListStage::Begin) {
        ListNext::Select(selection) => {
            let rows = store.notifications.select(selection.parent);
            match notification::get_all_notifications(ListStage::Listed(Ok(rows))) {
                ListNext::Reply(reply) => reply,
                ListNext::Select(_) => unreached(),
            }
        },
        ListNext::Reply(_) => unreached(),
    }
}

} // verus!
