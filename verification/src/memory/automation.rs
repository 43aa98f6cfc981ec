//! Handlers for automation rules, run against the in-memory store.

use vstd::prelude::*;
use vstd::pervasive::unreached;
use crate::handlers::automation;
use crate::handlers::{CreateNext, CreateStage, EraseNext, EraseStage, FindNext, FindStage, ListNext, ListStage, Parent, UpdateNext, UpdateStage};
use crate::models::automation::Model;
use crate::response::{Reply, Status};
use crate::schema::{Row, Table};
use crate::store::rows::{lookup, selected};
use crate::store::Store;

verus! {

/// Creates an automation. Where the store takes the row, the reply carries it
/// under its new key, it is the last row of its table and the row that its key
/// looks up, and nothing else has changed; where the store refuses it, the
/// reply is a failure and nothing has changed.
pub fn create_automation(store: &mut Store, form: &automation::CreateAutoRequest) -> (reply: Reply<Model>)
    requires
        old(store).wf(),
    ensures
        final(store).wf(),
        if old(store).admits_automation(automation::draft(*form)) {
            let row = automation::draft(*form).keyed(old(store).automations.next as int);
            &&& reply.is_data(None, row)
            &&& final(store).automations.rows@ == old(store).automations.rows@.push(row)
            &&& final(store).automations.next == old(store).automations.next + 1
            &&& lookup(final(store).automations.rows@, row.key()) == Some(row)
            &&& final(store).same_but(old(store), Table::Automation)
        } else {
            &&& reply.status == Status::InternalServerError
            &&& !reply.success_spec()
            &&& final(store).same(old(store))
        },
{
    match automation::create_automation(form, CreateStage::Begin) {
        CreateNext::Insert(row) => {
            let outcome = store.insert_automation(row);
            match automation::create_automation(form, CreateStage::Inserted(outcome)) {
                CreateNext::Reply(reply) => reply,
                CreateNext::Insert(_) => unreached(),
            }
        },
        CreateNext::Reply(_) => unreached(),
    }
}

/// Lists the automations of one land plot, in the order of insertion: the reply
/// carries copies of exactly those rows.
pub fn get_automations_by_land(store: &Store, land_id: i32) -> (reply: Reply<Vec<Model>>)
    ensures
        reply.has_data(None),
        reply.payload()@ == selected(store.automations.rows@, Some(Parent { table: Table::Land, key: land_id })),
{
    match automation::get_automations_by_land(land_id, ListStage::Begin) {
        ListNext::Select(selection) => {
            let rows = store.automations.select(selection.parent);
            match automation::get_automations_by_land(land_id, ListStage::Listed(Ok(rows))) {
                ListNext::Reply(reply) => reply,
                ListNext::Select(_) => unreached(),
            }
        },
        ListNext::Reply(_) => unreached(),
    }
}

/// Returns the automation that the key looks up, or answers that there is none.
pub fn get_automation_by_id(store: &Store, id: i32) -> (reply: Reply<Model>)
    requires
        store.wf(),
    ensures
        match lookup(store.automations.rows@, id as int) {
            Some(row) => reply.is_data(None, row),
            None => reply.is_error(Status::NotFound, "Automation not found"@),
        },
{
    match automation::get_automation_by_id(id, FindStage::Begin) {
        FindNext::Find(key) => {
            let found = store.automations.get(key);
            match automation::get_automation_by_id(id, FindStage::Found(Ok(found))) {
                FindNext::Reply(reply) => reply,
                FindNext::Find(_) => unreached(),
            }
        },
        FindNext::Reply(_) => unreached(),
    }
}

/// Changes an automation. Where the row exists and the store takes the changed
/// row, the reply carries it, it stands in the place of the stored row, and no
/// other row has changed; where there is no such row the reply says so, where
/// the store refuses the change the reply is a failure, and either way nothing
/// has changed.
pub fn update_automation(store: &mut Store, id: i32, form: &automation::UpdateAutoRequest) -> (reply: Reply<Model>)
    requires
        old(store).wf(),
    ensures
        final(store).wf(),
        match lookup(old(store).automations.rows@, id as int) {
            None => reply.is_error(Status::NotFound, "Automation not found"@) && final(store).same(old(store)),
            Some(stored) => {
                let row = automation::patched(stored, *form);
                if old(store).permits_automation(row) {
                    &&& reply.is_data(None, row)
                    &&& lookup(final(store).automations.rows@, row.key()) == Some(row)
                    &&& final(store).automations.rows@.len() == old(store).automations.rows@.len()
                    &&& forall|i: int|
                        0 <= i < old(store).automations.rows@.len() ==> #[trigger] final(store).automations.rows@[i]
                            == if old(store).automations.rows@[i].key() == row.key() {
                            row
                        } else {
                            old(store).automations.rows@[i]
                        }
                    &&& final(store).automations.next == old(store).automations.next
                    &&& final(store).same_but(old(store), Table::Automation)
                } else {
                    &&& reply.status == Status::InternalServerError
                    &&& !reply.success_spec()
                    &&& final(store).same(old(store))
                }
            },
        },
{
    match automation::update_automation(id, form, UpdateStage::Begin) {
        UpdateNext::Find(key) => {
            let found = store.automations.get(key);
            match automation::update_automation(id, form, UpdateStage::Found(Ok(found))) {
                UpdateNext::Save(row) => {
                    let outcome = store.update_automation(row);
                    match automation::update_automation(id, form, UpdateStage::Saved(outcome)) {
                        UpdateNext::Reply(reply) => reply,
                        _ => unreached(),
                    }
                },
                UpdateNext::Reply(reply) => reply,
                UpdateNext::Find(_) => unreached(),
            }
        },
        _ => unreached(),
    }
}

/// Deletes an automation and the rows that follow it. The reply is a success
/// only if the row existed and the store removed it; where there is no such row
/// the reply says so, where the store refuses the delete the reply is a
/// failure, and either way nothing has changed.
pub fn delete_automation(store: &mut Store, id: i32) -> (reply: Reply<()>)
    requires
        old(store).wf(),
    ensures
        final(store).wf(),
        if !old(store).has(Table::Automation, id as int) {
            reply.is_error(Status::NotFound, "Automation not found"@) && final(store).same(old(store))
        } else if old(store).blocked(Table::Automation, id as int) {
            &&& reply.status == Status::InternalServerError
            &&& !reply.success_spec()
            &&& final(store).same(old(store))
        } else {
            &&& reply.is_done(None)
            &&& final(store).deleted(old(store), Table::Automation, id as int)
        },
{
    match automation::delete_automation(id, EraseStage::Begin) {
        EraseNext::Delete(key) => {
            let outcome = store.delete(Table::Automation, key);
            match automation::delete_automation(id, EraseStage::Deleted(outcome)) {
                EraseNext::Reply(reply) => reply,
                EraseNext::Delete(_) => unreached(),
            }
        },
        EraseNext::Reply(_) => unreached(),
    }
}

} // verus!
