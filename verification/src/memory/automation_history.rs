//! Handlers for the trigger history of automations, run against the
//! in-memory store.

use vstd::prelude::*;
use vstd::pervasive::unreached;
use crate::handlers::automation_history;
use crate::handlers::{CreateNext, CreateStage, FindStage, LatestNext, ListNext, ListStage, Parent};
use crate::models::automation_history::Model;
use crate::response::{Reply, Status};
use crate::schema::{Row, Table};
use crate::store::rows::{latest, lookup, newest, selected, under};
use crate::store::Store;
use crate::values::Timestamp;

verus! {

/// Whether `after` and `reply` are what recording a firing at the instant `at`
/// makes of the store `before`: where the store takes the row, the reply
/// carries it under its new key, it is the last row of its table and the row
/// that its key looks up, and nothing else has changed; where the store
/// refuses it, the reply is a failure and nothing has changed.
pub open spec fn records(
    before: &Store,
    after: &Store,
    form: automation_history::CreateAutoHistoryRequest,
    at: Timestamp,
    reply: Reply<Model>,
) -> bool {
    let draft = automation_history::draft(form, at);
    if before.admits_automation_history(draft) {
        let row = draft.keyed(before.automation_histories.next as int);
        &&& reply.is_data(None, row)
        &&& after.automation_histories.rows@ == before.automation_histories.rows@.push(row)
        &&& after.automation_histories.next == before.automation_histories.next + 1
        &&& lookup(after.automation_histories.rows@, row.key()) == Some(row)
        &&& after.same_but(before, Table::AutomationHistory)
    } else {
        &&& reply.status == Status::InternalServerError
        &&& !reply.success_spec()
        &&& after.same(before)
    }
}

/// Records a firing that happened at the instant `at`.
pub fn create_automation_history_at(
    store: &mut Store,
    form: &automation_history::CreateAutoHistoryRequest,
    at: Timestamp,
) -> (reply: Reply<Model>)
    requires
        old(store).wf(),
    ensures
        final(store).wf(),
        records(old(store), final(store), *form, at, reply),
{
    match automation_history::create_automation_history_at(form, at, CreateStage::Begin) {
        CreateNext::Insert(row) => {
            let outcome = store.insert_automation_history(row);
            match automation_history::create_automation_history_at(
                form,
                at,
                CreateStage::Inserted(outcome),
            ) {
                CreateNext::Reply(reply) => reply,
                CreateNext::Insert(_) => unreached(),
            }
        },
        CreateNext::Reply(_) => unreached(),
    }
}

/// Records a firing that happens now, by the local clock: what recording it
/// at some instant does. The instant is not determined.
pub fn create_automation_history(
    store: &mut Store,
    form: &automation_history::CreateAutoHistoryRequest,
) -> (reply: Reply<Model>)
    requires
        old(store).wf(),
    ensures
        final(store).wf(),
        exists|at: Timestamp| #[trigger] records(old(store), final(store), *form, at, reply),
{
    match automation_history::create_automation_history(form, CreateStage::Begin) {
        CreateNext::Insert(row) => {
            let ghost at = row.triggered_at;
            let ghost before = *store;
            let outcome = store.insert_automation_history(row);
            match automation_history::create_automation_history(
                form,
                CreateStage::Inserted(outcome),
            ) {
                CreateNext::Reply(reply) => {
                    proof {
                        assert(automation_history::draft(*form, at) == row);
                        assert(records(&before, store, *form, at, reply));
                    }
                    reply
                },
                CreateNext::Insert(_) => unreached(),
            }
        },
        CreateNext::Reply(_) => unreached(),
    }
}

/// Lists the firings of one automation, in the order of insertion: the reply
/// carries copies of exactly those rows.
pub fn get_history_by_automation(store: &Store, automation_id: i32) -> (reply: Reply<Vec<Model>>)
    ensures
        reply.has_data(None),
        reply.payload()@ == selected(
            store.automation_histories.rows@,
            Some(Parent { table: Table::Automation, key: automation_id }),
        ),
{
    match automation_history::get_history_by_automation(automation_id, ListStage::Begin) {
        ListNext::Select(selection) => {
            let rows = store.automation_histories.select(selection.parent);
            match automation_history::get_history_by_automation(
                automation_id,
                ListStage::Listed(Ok(rows)),
            ) {
                ListNext::Reply(reply) => reply,
                ListNext::Select(_) => unreached(),
            }
        },
        ListNext::Reply(_) => unreached(),
    }
}

/// Returns the newest firing of one automation: a firing of that automation
/// that no firing of it lies after in time. Where the automation has not fired
/// the reply is a success with an empty payload.
pub fn get_latest_history_by_automation(store: &Store, automation_id: i32) -> (reply: Reply<
    Option<Model>,
>)
    ensures
        reply.has_data(None),
        ({
            let parent = Some(Parent { table: Table::Automation, key: automation_id });
            match reply.payload() {
                None => selected(store.automation_histories.rows@, parent).len() == 0,
                Some(row) => {
                    &&& store.automation_histories.rows@.contains(row)
                    &&& under(row, parent)
                    &&& latest(selected(store.automation_histories.rows@, parent), row)
                },
            }
        }),
{
    match automation_history::get_latest_history_by_automation(automation_id, FindStage::Begin) {
        LatestNext::Newest(parent) => {
            let found = newest(&store.automation_histories.rows, parent);
            match automation_history::get_latest_history_by_automation(
                automation_id,
                FindStage::Found(Ok(found)),
            ) {
                LatestNext::Reply(reply) => reply,
                LatestNext::Newest(_) => unreached(),
            }
        },
        LatestNext::Reply(_) => unreached(),
    }
}

} // verus!
