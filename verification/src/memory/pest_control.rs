//! Handlers for pest-control tasks, run against the in-memory store.

use vstd::prelude::*;
use vstd::pervasive::unreached;
use crate::handlers::pest_control;
use crate::handlers::{CreateNext, CreateStage, EraseNext, EraseStage, FindNext, FindStage, ListNext, ListStage, Parent, UpdateNext, UpdateStage};
use crate::models::pest_control::Model;
use crate::response::{Reply, Status};
use crate::schema::{Row, Table};
use crate::store::rows::{lookup, selected};
use crate::store::Store;

verus! {

/// Creates a pest-control task. Where the store takes the row, the reply
/// carries it under its new key, it is the last row of its table and the row
/// that its key looks up, and nothing else has changed; where the store refuses
/// it, the reply is a failure and nothing has changed.
pub fn create_pest_control(store: &mut Store, form: &pest_control::CreatePestRequest) -> (reply: Reply<Model>)
    requires
        old(store).wf(),
    ensures
        final(store).wf(),
        if old(store).admits_pest_control(pest_control::draft(*form)) {
            let row = pest_control::draft(*form).keyed(old(store).pest_controls.next as int);
            &&& reply.is_data(None, row)
            &&& final(store).pest_controls.rows@ == old(store).pest_controls.rows@.push(row)
            &&& final(store).pest_controls.next == old(store).pest_controls.next + 1
            &&& lookup(final(store).pest_controls.rows@, row.key()) == Some(row)
            &&& final(store).same_but(old(store), Table::PestControl)
        } else {
            &&& reply.status == Status::InternalServerError
            &&& !reply.success_spec()
            &&& final(store).same(old(store))
        },
{
    match pest_control::create_pest_control(form, CreateStage::Begin) {
        CreateNext::Insert(row) => {
            let outcome = store.insert_pest_control(row);
            match pest_control::create_pest_control(form, CreateStage::Inserted(outcome)) {
                CreateNext::Reply(reply) => reply,
                CreateNext::Insert(_) => unreached(),
            }
        },
        CreateNext::Reply(_) => unreached(),
    }
}

/// Lists the pest-control tasks of one land plot, in the order of insertion:
/// the reply carries copies of exactly those rows.
pub fn get_pest_controls_by_land(store: &Store, land_id: i32) -> (reply: Reply<Vec<Model>>)
    ensures
        reply.has_data(None),
        reply.payload()@ == selected(store.pest_controls.rows@, Some(Parent { table: Table::Land, key: land_id })),
{
    match pest_control::get_pest_controls_by_land(land_id, ListStage::Begin) {
        ListNext::Select(selection) => {
            let rows = store.pest_controls.select(selection.parent);
            match pest_control::get_pest_controls_by_land(land_id, ListStage::Listed(Ok(rows))) {
                ListNext::Reply(reply) => reply,
                ListNext::Select(_) => unreached(),
            }
        },
        ListNext::Reply(_) => unreached(),
    }
}

/// Returns the pest-control task that the key looks up, or answers that there
/// is none.
pub fn get_pest_control_by_id(store: &Store, id: i32) -> (reply: Reply<Model>)
    requires
        store.wf(),
    ensures
        match lookup(store.pest_controls.rows@, id as int) {
            Some(row) => reply.is_data(None, row),
            None => reply.is_error(Status::NotFound, "Not found"@),
        },
{
    match pest_control::get_pest_control_by_id(id, FindStage::Begin) {
        FindNext::Find(key) => {
            let found = store.pest_controls.get(key);
            match pest_control::get_pest_control_by_id(id, FindStage::Found(Ok(found))) {
                FindNext::Reply(reply) => reply,
                FindNext::Find(_) => unreached(),
            }
        },
        FindNext::Reply(_) => unreached(),
    }
}

/// Changes a pest-control task. Where the row exists and the store takes the
/// changed row, the reply carries it, it stands in the place of the stored row,
/// and no other row has changed; where there is no such row the reply says so,
/// where the store refuses the change the reply is a failure, and either way
/// nothing has changed.
pub fn update_pest_control(store: &mut Store, id: i32, form: &pest_control::UpdatePestRequest) -> (reply: Reply<Model>)
    requires
        old(store).wf(),
    ensures
        final(store).wf(),
        match lookup(old(store).pest_controls.rows@, id as int) {
            None => reply.is_error(Status::NotFound, "Not found"@) && final(store).same(old(store)),
            Some(stored) => {
                let row = pest_control::patched(stored, *form);
                if old(store).permits_pest_control(row) {
                    &&& reply.is_data(None, row)
                    &&& lookup(final(store).pest_controls.rows@, row.key()) == Some(row)
                    &&& final(store).pest_controls.rows@.len() == old(store).pest_controls.rows@.len()
                    &&& forall|i: int|
                        0 <= i < old(store).pest_controls.rows@.len() ==> #[trigger] final(store).pest_controls.rows@[i]
                            == if old(store).pest_controls.rows@[i].key() == row.key() {
                            row
                        } else {
                            old(store).pest_controls.rows@[i]
                        }
                    &&& final(store).pest_controls.next == old(store).pest_controls.next
                    &&& final(store).same_but(old(store), Table::PestControl)
                } else {
                    &&& reply.status == Status::InternalServerError
                    &&& !reply.success_spec()
                    &&& final(store).same(old(store))
                }
            },
        },
{
    match pest_control::update_pest_control(id, form, UpdateStage::Begin) {
        UpdateNext::Find(key) => {
            let found = store.pest_controls.get(key);
            match pest_control::update_pest_control(id, form, UpdateStage::Found(Ok(found))) {
                UpdateNext::Save(row) => {
                    let outcome = store.update_pest_control(row);
                    match pest_control::update_pest_control(id, form, UpdateStage::Saved(outcome)) {
                        UpdateNext::Reply(reply) => reply,
                        _ => unreached(),
                    }
                },
                UpdateNext::Reply(reply) => reply,
                UpdateNext::Find(_) => unreached(),
            }
        },
        _ => unreached(),
    }
}

/// Deletes a pest-control task and the rows that follow it. The reply is a
/// success only if the row existed and the store removed it; where there is no
/// such row the reply says so, where the store refuses the delete the reply is
/// a failure, and either way nothing has changed.
pub fn delete_pest_control(store: &mut Store, id: i32) -> (reply: Reply<()>)
    requires
        old(store).wf(),
    ensures
        final(store).wf(),
        if !old(store).has(Table::PestControl, id as int) {
            reply.is_error(Status::NotFound, "Not found"@) && final(store).same(old(store))
        } else if old(store).blocked(Table::PestControl, id as int) {
            &&& reply.status == Status::InternalServerError
            &&& !reply.success_spec()
            &&& final(store).same(old(store))
        } else {
            &&& reply.is_done(Some("Deleted"@))
            &&& final(store).deleted(old(store), Table::PestControl, id as int)
        },
{
    match pest_control::delete_pest_control(id, EraseStage::Begin) {
        EraseNext::Delete(key) => {
            let outcome = store.delete(Table::PestControl, key);
            match pest_control::delete_pest_control(id, EraseStage::Deleted(outcome)) {
                EraseNext::Reply(reply) => reply,
                EraseNext::Delete(_) => unreached(),
            }
        },
        EraseNext::Reply(_) => unreached(),
    }
}

} // verus!
