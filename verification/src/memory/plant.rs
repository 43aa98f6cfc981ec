//! Handlers for plants, run against the in-memory store.

use vstd::prelude::*;
use vstd::pervasive::unreached;
use crate::handlers::plant;
use crate::handlers::{CreateNext, CreateStage, DeleteNext, DeleteStage, FindNext, FindStage, ListNext, ListStage, Parent, UpdateNext, UpdateStage};
use crate::models::plant::Model;
use crate::response::{Reply, Status};
use crate::schema::{Row, Table};
use crate::store::rows::{lookup, selected};
use crate::store::Store;

verus! {

/// Creates a plant. Where the store takes the row, the reply carries it under
/// its new key, it is the last row of its table and the row that its key looks
/// up, and nothing else has changed; where the store refuses it, the reply is a
/// failure and nothing has changed.
pub fn create_plant(store: &mut Store, form: &plant::CreatePlantRequest) -> (reply: Reply<Model>)
    requires
        old(store).wf(),
    ensures
        final(store).wf(),
        if old(store).admits_plant(plant::draft(*form)) {
            let row = plant::draft(*form).keyed(old(store).plants.next as int);
            &&& reply.is_data(Some("Plant created successfully"@), row)
            &&& final(store).plants.rows@ == old(store).plants.rows@.push(row)
            &&& final(store).plants.next == old(store).plants.next + 1
            &&& lookup(final(store).plants.rows@, row.key()) == Some(row)
            &&& final(store).same_but(old(store), Table::Plant)
        } else {
            &&& reply.status == Status::InternalServerError
            &&& !reply.success_spec()
            &&& final(store).same(old(store))
        },
{
    match plant::create_plant(form, CreateStage::Begin) {
        CreateNext::Insert(row) => {
            let outcome = store.insert_plant(row);
            match plant::create_plant(form, CreateStage::Inserted(outcome)) {
                CreateNext::Reply(reply) => reply,
                CreateNext::Insert(_) => unreached(),
            }
        },
        CreateNext::Reply(_) => unreached(),
    }
}

/// Lists the plants of one land plot, in the order of insertion: the reply
/// carries copies of exactly those rows.
pub fn get_plants_by_land(store: &Store, land_id: i32) -> (reply: Reply<Vec<Model>>)
    ensures
        reply.has_data(None),
        reply.payload()@ == selected(store.plants.rows@, Some(Parent { table: Table::Land, key: land_id })),
{
    match plant::get_plants_by_land(land_id, ListStage::Begin) {
        ListNext::Select(selection) => {
            let rows = store.plants.select(selection.parent);
            match plant::get_plants_by_land(land_id, ListStage::Listed(Ok(rows))) {
                ListNext::Reply(reply) => reply,
                ListNext::Select(_) => unreached(),
            }
        },
        ListNext::Reply(_) => unreached(),
    }
}

/// Returns the plant that the key looks up, or answers that there is none.
pub fn get_plant_by_id(store: &Store, id: i32) -> (reply: Reply<Model>)
    requires
        store.wf(),
    ensures
        match lookup(store.plants.rows@, id as int) {
            Some(row) => reply.is_data(None, row),
            None => reply.is_error(Status::NotFound, "Plant not found"@),
        },
{
    match plant::get_plant_by_id(id, FindStage::Begin) {
        FindNext::Find(key) => {
            let found = store.plants.get(key);
            match plant::get_plant_by_id(id, FindStage::Found(Ok(found))) {
                FindNext::Reply(reply) => reply,
                FindNext::Find(_) => unreached(),
            }
        },
        FindNext::Reply(_) => unreached(),
    }
}

/// Changes a plant. Where the row exists and the store takes the changed row,
/// the reply carries it, it stands in the place of the stored row, and no other
/// row has changed; where there is no such row the reply says so, where the
/// store refuses the change the reply is a failure, and either way nothing has
/// changed.
pub fn update_plant(store: &mut Store, id: i32, form: &plant::UpdatePlantRequest) -> (reply: Reply<Model>)
    requires
        old(store).wf(),
    ensures
        final(store).wf(),
        match lookup(old(store).plants.rows@, id as int) {
            None => reply.is_error(Status::NotFound, "Plant not found"@) && final(store).same(old(store)),
            Some(stored) => {
                let row = plant::patched(stored, *form);
                if old(store).permits_plant(row) {
                    &&& reply.is_data(Some("Plant updated successfully"@), row)
                    &&& lookup(final(store).plants.rows@, row.key()) == Some(row)
                    &&& final(store).plants.rows@.len() == old(store).plants.rows@.len()
                    &&& forall|i: int|
                        0 <= i < old(store).plants.rows@.len() ==> #[trigger] final(store).plants.rows@[i]
                            == if old(store).plants.rows@[i].key() == row.key() {
                            row
                        } else {
                            old(store).plants.rows@[i]
                        }
                    &&& final(store).plants.next == old(store).plants.next
                    &&& final(store).same_but(old(store), Table::Plant)
                } else {
                    &&& reply.status == Status::InternalServerError
                    &&& !reply.success_spec()
                    &&& final(store).same(old(store))
                }
            },
        },
{
    match plant::update_plant(id, form, UpdateStage::Begin) {
        UpdateNext::Find(key) => {
            let found = store.plants.get(key);
            match plant::update_plant(id, form, UpdateStage::Found(Ok(found))) {
                UpdateNext::Save(row) => {
                    let outcome = store.update_plant(row);
                    match plant::update_plant(id, form, UpdateStage::Saved(outcome)) {
                        UpdateNext::Reply(reply) => reply,
                        _ => unreached(),
                    }
                },
                UpdateNext::Reply(reply) => reply,
                UpdateNext::Find(_) => unreached(),
            }
        },
        _ => unreached(),
    }
}

/// Deletes a plant and the rows that follow it. The reply is a success only if
/// the row existed and the store removed it; where there is no such row the
/// reply says so, where the store refuses the delete the reply is a failure,
/// and either way nothing has changed.
pub fn delete_plant(store: &mut Store, id: i32) -> (reply: Reply<()>)
    requires
        old(store).wf(),
    ensures
        final(store).wf(),
        if !old(store).has(Table::Plant, id as int) {
            reply.is_error(Status::NotFound, "Plant not found"@) && final(store).same(old(store))
        } else if old(store).blocked(Table::Plant, id as int) {
            &&& reply.status == Status::InternalServerError
            &&& !reply.success_spec()
            &&& final(store).same(old(store))
        } else {
            &&& reply.is_done(Some("Plant deleted successfully"@))
            &&& final(store).deleted(old(store), Table::Plant, id as int)
        },
{
    match plant::delete_plant(id, DeleteStage::Begin) {
        DeleteNext::Find(key) => {
            let found = store.plants.get(key);
            match plant::delete_plant(id, DeleteStage::Found(Ok(found))) {
                DeleteNext::Delete(row) => {
                    let outcome = store.delete(Table::Plant, row.id);
                    match plant::delete_plant(id, DeleteStage::Deleted(outcome)) {
                        DeleteNext::Reply(reply) => reply,
                        _ => unreached(),
                    }
                },
                DeleteNext::Reply(reply) => reply,
                DeleteNext::Find(_) => unreached(),
            }
        },
        _ => unreached(),
    }
}

} // verus!
