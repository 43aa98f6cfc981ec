//! Handlers for irrigation valves, run against the in-memory store.

use vstd::prelude::*;
use vstd::pervasive::unreached;
use crate::handlers::valve;
use crate::handlers::{CreateNext, CreateStage, EraseNext, EraseStage, FindNext, FindStage, ListNext, ListStage, Parent, UpdateNext, UpdateStage};
use crate::models::valve::Model;
use crate::response::{Reply, Status};
use crate::schema::{Row, Table};
use crate::store::rows::{lookup, selected};
use crate::store::Store;

verus! {

/// Creates a valve. Where the store takes the row, the reply carries it under
/// its new key, it is the last row of its table and the row that its key looks
/// up, and nothing else has changed; where the store refuses it, the reply is a
/// failure and nothing has changed.
pub fn create_valve(store: &mut Store, form: &valve::CreateValveRequest) -> (reply: Reply<Model>)
    requires
        old(store).wf(),
    ensures
        final(store).wf(),
        if old(store).admits_valve(valve::draft(*form)) {
            let row = valve::draft(*form).keyed(old(store).valves.next as int);
            &&& reply.is_data(None, row)
            &&& final(store).valves.rows@ == old(store).valves.rows@.push(row)
            &&& final(store).valves.next == old(store).valves.next + 1
            &&& lookup(final(store).valves.rows@, row.key()) == Some(row)
            &&& final(store).same_but(old(store), Table::Valve)
        } else {
            &&& reply.status == Status::InternalServerError
            &&& !reply.success_spec()
            &&& final(store).same(old(store))
        },
{
    match valve::create_valve(form, CreateStage::Begin) {
        CreateNext::Insert(row) => {
            let outcome = store.insert_valve(row);
            match valve::create_valve(form, CreateStage::Inserted(outcome)) {
                CreateNext::Reply(reply) => reply,
                CreateNext::Insert(_) => unreached(),
            }
        },
        CreateNext::Reply(_) => unreached(),
    }
}

/// Lists the valves of one land plot, in the order of insertion: the reply
/// carries copies of exactly those rows.
pub fn get_valves_by_land(store: &Store, land_id: i32) -> (reply: Reply<Vec<Model>>)
    ensures
        reply.has_data(None),
        reply.payload()@ == selected(store.valves.rows@, Some(Parent { table: Table::Land, key: land_id })),
{
    match valve::get_valves_by_land(land_id, ListStage::Begin) {
        ListNext::Select(selection) => {
            let rows = store.valves.select(selection.parent);
            match valve::get_valves_by_land(land_id, ListStage::Listed(Ok(rows))) {
                ListNext::Reply(reply) => reply,
                ListNext::Select(_) => unreached(),
            }
        },
        ListNext::Reply(_) => unreached(),
    }
}

/// Returns the valve that the key looks up, or answers that there is none.
pub fn get_valve_by_id(store: &Store, id: i32) -> (reply: Reply<Model>)
    requires
        store.wf(),
    ensures
        match lookup(store.valves.rows@, id as int) {
            Some(row) => reply.is_data(None, row),
            None => reply.is_error(Status::NotFound, "Valve not found"@),
        },
{
    match valve::get_valve_by_id(id, FindStage::Begin) {
        FindNext::Find(key) => {
            let found = store.valves.get(key);
            match valve::get_valve_by_id(id, FindStage::Found(Ok(found))) {
                FindNext::Reply(reply) => reply,
                FindNext::Find(_) => unreached(),
            }
        },
        FindNext::Reply(_) => unreached(),
    }
}

/// Changes a valve. Where the row exists and the store takes the changed row,
/// the reply carries it, it stands in the place of the stored row, and no other
/// row has changed; where there is no such row the reply says so, where the
/// store refuses the change the reply is a failure, and either way nothing has
/// changed.
pub fn update_valve(store: &mut Store, id: i32, form: &valve::UpdateValveRequest) -> (reply: Reply<Model>)
    requires
        old(store).wf(),
    ensures
        final(store).wf(),
        match lookup(old(store).valves.rows@, id as int) {
            None => reply.is_error(Status::NotFound, "Valve not found"@) && final(store).same(old(store)),
            Some(stored) => {
                let row = valve::patched(stored, *form);
                if old(store).permits_valve(row) {
                    &&& reply.is_data(None, row)
                    &&& lookup(final(store).valves.rows@, row.key()) == Some(row)
                    &&& final(store).valves.rows@.len() == old(store).valves.rows@.len()
                    &&& forall|i: int|
                        0 <= i < old(store).valves.rows@.len() ==> #[trigger] final(store).valves.rows@[i]
                            == if old(store).valves.rows@[i].key() == row.key() {
                            row
                        } else {
                            old(store).valves.rows@[i]
                        }
                    &&& final(store).valves.next == old(store).valves.next
                    &&& final(store).same_but(old(store), Table::Valve)
                } else {
                    &&& reply.status == Status::InternalServerError
                    &&& !reply.success_spec()
                    &&& final(store).same(old(store))
                }
            },
        },
{
    match valve::update_valve(id, form, UpdateStage::Begin) {
        UpdateNext::Find(key) => {
            let found = store.valves.get(key);
            match valve::update_valve(id, form, UpdateStage::Found(Ok(found))) {
                UpdateNext::Save(row) => {
                    let outcome = store.update_valve(row);
                    match valve::update_valve(id, form, UpdateStage::Saved(outcome)) {
                        UpdateNext::Reply(reply) => reply,
                        _ => unreached(),
                    }
                },
                UpdateNext::Reply(reply) => reply,
                UpdateNext::Find(_) => unreached(),
            }
        },
        _ => unreached(),
    }
}

/// Deletes a valve and the rows that follow it. The reply is a success only if
/// the row existed and the store removed it; where there is no such row the
/// reply says so, where the store refuses the delete the reply is a failure,
/// and either way nothing has changed.
pub fn delete_valve(store: &mut Store, id: i32) -> (reply: Reply<()>)
    requires
        old(store).wf(),
    ensures
        final(store).wf(),
        if !old(store).has(Table::Valve, id as int) {
            reply.is_error(Status::NotFound, "Not found"@) && final(store).same(old(store))
        } else if old(store).blocked(Table::Valve, id as int) {
            &&& reply.status == Status::InternalServerError
            &&& !reply.success_spec()
            &&& final(store).same(old(store))
        } else {
            &&& reply.is_done(None)
            &&& final(store).deleted(old(store), Table::Valve, id as int)
        },
{
    match valve::delete_valve(id, EraseStage::Begin) {
        EraseNext::Delete(key) => {
            let outcome = store.delete(Table::Valve, key);
            match valve::delete_valve(id, EraseStage::Deleted(outcome)) {
                EraseNext::Reply(reply) => reply,
                EraseNext::Delete(_) => unreached(),
            }
        },
        EraseNext::Reply(_) => unreached(),
    }
}

} // verus!
