//! Handlers for irrigation pumps, run against the in-memory store.

use vstd::prelude::*;
use vstd::pervasive::unreached;
use crate::handlers::pump;
use crate::handlers::{CreateNext, CreateStage, EraseNext, EraseStage, FindNext, FindStage, ListNext, ListStage, Parent, UpdateNext, UpdateStage};
use crate::models::pump::Model;
use crate::response::{Reply, Status};
use crate::schema::{Row, Table};
use crate::store::rows::{lookup, selected};
use crate::store::Store;

verus! {

/// Creates a pump. Where the store takes the row, the reply carries it under
/// its new key, it is the last row of its table and the row that its key looks
/// up, and nothing else has changed; where the store refuses it, the reply is a
/// failure and nothing has changed.
pub fn create_pump(store: &mut Store, form: &pump::CreatePumpRequest) -> (reply: Reply<Model>)
    requires
        old(store).wf(),
    ensures
        final(store).wf(),
        if old(store).admits_pump(pump::draft(*form)) {
            let row = pump::draft(*form).keyed(old(store).pumps.next as int);
            &&& reply.is_data(None, row)
            &&& final(store).pumps.rows@ == old(store).pumps.rows@.push(row)
            &&& final(store).pumps.next == old(store).pumps.next + 1
            &&& lookup(final(store).pumps.rows@, row.key()) == Some(row)
            &&& final(store).same_but(old(store), Table::Pump)
        } else {
            &&& reply.status == Status::InternalServerError
            &&& !reply.success_spec()
            &&& final(store).same(old(store))
        },
{
    match pump::create_pump(form, CreateStage::Begin) {
        CreateNext::Insert(row) => {
            let outcome = store.insert_pump(row);
            match pump::create_pump(form, CreateStage::Inserted(outcome)) {
                CreateNext::Reply(reply) => reply,
                CreateNext::Insert(_) => unreached(),
            }
        },
        CreateNext::Reply(_) => unreached(),
    }
}

/// Lists the pumps of one land plot, in the order of insertion: the reply
/// carries copies of exactly those rows.
pub fn get_pumps_by_land(store: &Store, land_id: i32) -> (reply: Reply<Vec<Model>>)
    ensures
        reply.has_data(None),
        reply.payload()@ == selected(store.pumps.rows@, Some(Parent { table: Table::Land, key: land_id })),
{
    match pump::get_pumps_by_land(land_id, ListStage::Begin) {
        ListNext::Select(selection) => {
            let rows = store.pumps.select(selection.parent);
            match pump::get_pumps_by_land(land_id, ListStage::Listed(Ok(rows))) {
                ListNext::Reply(reply) => reply,
                ListNext::Select(_) => unreached(),
            }
        },
        ListNext::Reply(_) => unreached(),
    }
}

/// Returns the pump that the key looks up, or answers that there is none.
pub fn get_pump_by_id(store: &Store, id: i32) -> (reply: Reply<Model>)
    requires
        store.wf(),
    ensures
        match lookup(store.pumps.rows@, id as int) {
            Some(row) => reply.is_data(None, row),
            None => reply.is_error(Status::NotFound, "Pump not found"@),
        },
{
    match pump::get_pump_by_id(id, FindStage::Begin) {
        FindNext::Find(key) => {
            let found = store.pumps.get(key);
            match pump::get_pump_by_id(id, FindStage::Found(Ok(found))) {
                FindNext::Reply(reply) => reply,
                FindNext::Find(_) => unreached(),
            }
        },
        FindNext::Reply(_) => unreached(),
    }
}

/// Changes a pump. Where the row exists and the store takes the changed row,
/// the reply carries it, it stands in the place of the stored row, and no other
/// row has changed; where there is no such row the reply says so, where the
/// store refuses the change the reply is a failure, and either way nothing has
/// changed.
pub fn update_pump(store: &mut Store, id: i32, form: &pump::UpdatePumpRequest) -> (reply: Reply<Model>)
    requires
        old(store).wf(),
    ensures
        final(store).wf(),
        match lookup(old(store).pumps.rows@, id as int) {
            None => reply.is_error(Status::NotFound, "Pump not found"@) && final(store).same(old(store)),
            Some(stored) => {
                let row = pump::patched(stored, *form);
                if old(store).permits_pump(row) {
                    &&& reply.is_data(None, row)
                    &&& lookup(final(store).pumps.rows@, row.key()) == Some(row)
                    &&& final(store).pumps.rows@.len() == old(store).pumps.rows@.len()
                    &&& forall|i: int|
                        0 <= i < old(store).pumps.rows@.len() ==> #[trigger] final(store).pumps.rows@[i]
                            == if old(store).pumps.rows@[i].key() == row.key() {
                            row
                        } else {
                            old(store).pumps.rows@[i]
                        }
                    &&& final(store).pumps.next == old(store).pumps.next
                    &&& final(store).same_but(old(store), Table::Pump)
                } else {
                    &&& reply.status == Status::InternalServerError
                    &&& !reply.success_spec()
                    &&& final(store).same(old(store))
                }
            },
        },
{
    match pump::update_pump(id, form, UpdateStage::Begin) {
        UpdateNext::Find(key) => {
            let found = store.pumps.get(key);
            match pump::update_pump(id, form, UpdateStage::Found(Ok(found))) {
                UpdateNext::Save(row) => {
                    let outcome = store.update_pump(row);
                    match pump::update_pump(id, form, UpdateStage::Saved(outcome)) {
                        UpdateNext::Reply(reply) => reply,
                        _ => unreached(),
                    }
                },
                UpdateNext::Reply(reply) => reply,
                UpdateNext::Find(_) => unreached(),
            }
        },
        _ => unreached(),
    }
}

/// Deletes a pump and the rows that follow it. The reply is a success only if
/// the row existed and the store removed it; where there is no such row the
/// reply says so, where the store refuses the delete the reply is a failure,
/// and either way nothing has changed.
pub fn delete_pump(store: &mut Store, id: i32) -> (reply: Reply<()>)
    requires
        old(store).wf(),
    ensures
        final(store).wf(),
        if !old(store).has(Table::Pump, id as int) {
            reply.is_error(Status::NotFound, "Not found"@) && final(store).same(old(store))
        } else if old(store).blocked(Table::Pump, id as int) {
            &&& reply.status == Status::InternalServerError
            &&& !reply.success_spec()
            &&& final(store).same(old(store))
        } else {
            &&& reply.is_done(None)
            &&& final(store).deleted(old(store), Table::Pump, id as int)
        },
{
    match pump::delete_pump(id, EraseStage::Begin) {
        EraseNext::Delete(key) => {
            let outcome = store.delete(Table::Pump, key);
            match pump::delete_pump(id, EraseStage::Deleted(outcome)) {
                EraseNext::Reply(reply) => reply,
                EraseNext::Delete(_) => unreached(),
            }
        },
        EraseNext::Reply(_) => unreached(),
    }
}

} // verus!
