//! Handlers for land plots, run against the in-memory store.

use vstd::prelude::*;
use vstd::pervasive::unreached;
use crate::handlers::land;
use crate::handlers::{CreateNext, CreateStage, DeleteNext, DeleteStage, FindNext, FindStage, ListNext, ListStage, Parent, UpdateNext, UpdateStage};
use crate::models::land::Model;
use crate::response::{Reply, Status};
use crate::schema::{Row, Table};
use crate::store::rows::{lookup, selected};
use crate::store::Store;

verus! {

/// Creates a land plot. Where the store takes the row, the reply carries it
/// under its new key, it is the last row of its table and the row that its key
/// looks up, and nothing else has changed; where the store refuses it, the
/// reply is a failure and nothing has changed.
pub fn create_land(store: &mut Store, form: &land::CreateLandRequest) -> (reply: Reply<Model>)
    requires
        old(store).wf(),
    ensures
        final(store).wf(),
        if old(store).admits_land(land::draft(*form)) {
            let row = land::draft(*form).keyed(old(store).lands.next as int);
            &&& reply.is_data(Some("Land created successfully"@), row)
            &&& final(store).lands.rows@ == old(store).lands.rows@.push(row)
            &&& final(store).lands.next == old(store).lands.next + 1
            &&& lookup(final(store).lands.rows@, row.key()) == Some(row)
            &&& final(store).same_but(old(store), Table::Land)
        } else {
            &&& reply.status == Status::InternalServerError
            &&& !reply.success_spec()
            &&& final(store).same(old(store))
        },
{
    match land::create_land(form, CreateStage::Begin) {
        CreateNext::Insert(row) => {
            let outcome = store.insert_land(row);
            match land::create_land(form, CreateStage::Inserted(outcome)) {
                CreateNext::Reply(reply) => reply,
                CreateNext::Insert(_) => unreached(),
            }
        },
        CreateNext::Reply(_) => unreached(),
    }
}

/// Lists the land plots of one user, in the order of insertion: the reply
/// carries copies of exactly those rows.
pub fn get_user_lands(store: &Store, user_id: i32) -> (reply: Reply<Vec<Model>>)
    ensures
        reply.has_data(None),
        reply.payload()@ == selected(store.lands.rows@, Some(Parent { table: Table::User, key: user_id })),
{
    match land::get_user_lands(user_id, ListStage::Begin) {
        ListNext::Select(selection) => {
            let rows = store.lands.select(selection.parent);
            match land::get_user_lands(user_id, ListStage::Listed(Ok(rows))) {
                ListNext::Reply(reply) => reply,
                ListNext::Select(_) => unreached(),
            }
        },
        ListNext::Reply(_) => unreached(),
    }
}

/// Returns the land plot that the key looks up, or answers that there is none.
pub fn get_land_by_id(store: &Store, id: i32) -> (reply: Reply<Model>)
    requires
        store.wf(),
    ensures
        match lookup(store.lands.rows@, id as int) {
            Some(row) => reply.is_data(None, row),
            None => reply.is_error(Status::NotFound, "Land not found"@),
        },
{
    match land::get_land_by_id(id, FindStage::Begin) {
        FindNext::Find(key) => {
            let found = store.lands.get(key);
            match land::get_land_by_id(id, FindStage::Found(Ok(found))) {
                FindNext::Reply(reply) => reply,
                FindNext::Find(_) => unreached(),
            }
        },
        FindNext::Reply(_) => unreached(),
    }
}

/// Changes a land plot. Where the row exists and the store takes the changed
/// row, the reply carries it, it stands in the place of the stored row, and no
/// other row has changed; where there is no such row the reply says so, where
/// the store refuses the change the reply is a failure, and either way nothing
/// has changed.
pub fn update_land(store: &mut Store, id: i32, form: &land::UpdateLandRequest) -> (reply: Reply<Model>)
    requires
        old(store).wf(),
    ensures
        final(store).wf(),
        match lookup(old(store).lands.rows@, id as int) {
            None => reply.is_error(Status::NotFound, "Land not found"@) && final(store).same(old(store)),
            Some(stored) => {
                let row = land::patched(stored, *form);
                if old(store).permits_land(row) {
                    &&& reply.is_data(Some("Land updated successfully"@), row)
                    &&& lookup(final(store).lands.rows@, row.key()) == Some(row)
                    &&& final(store).lands.rows@.len() == old(store).lands.rows@.len()
                    &&& forall|i: int|
                        0 <= i < old(store).lands.rows@.len() ==> #[trigger] final(store).lands.rows@[i]
                            == if old(store).lands.rows@[i].key() == row.key() {
                            row
                        } else {
                            old(store).lands.rows@[i]
                        }
                    &&& final(store).lands.next == old(store).lands.next
                    &&& final(store).same_but(old(store), Table::Land)
                } else {
                    &&& reply.status == Status::InternalServerError
                    &&& !reply.success_spec()
                    &&& final(store).same(old(store))
                }
            },
        },
{
    match land::update_land(id, form, UpdateStage::Begin) {
        UpdateNext::Find(key) => {
            let found = store.lands.get(key);
            match land::update_land(id, form, UpdateStage::Found(Ok(found))) {
                UpdateNext::Save(row) => {
                    let outcome = store.update_land(row);
                    match land::update_land(id, form, UpdateStage::Saved(outcome)) {
                        UpdateNext::Reply(reply) => reply,
                        _ => unreached(),
                    }
                },
                UpdateNext::Reply(reply) => reply,
                UpdateNext::Find(_) => unreached(),
            }
        },
        _ => unreached(),
    }
}

/// Deletes a land plot and the rows that follow it. The reply is a success only
/// if the row existed and the store removed it; where there is no such row the
/// reply says so, where the store refuses the delete the reply is a failure,
/// and either way nothing has changed.
pub fn delete_land(store: &mut Store, id: i32) -> (reply: Reply<()>)
    requires
        old(store).wf(),
    ensures
        final(store).wf(),
        if !old(store).has(Table::Land, id as int) {
            reply.is_error(Status::NotFound, "Land not found"@) && final(store).same(old(store))
        } else if old(store).blocked(Table::Land, id as int) {
            &&& reply.status == Status::InternalServerError
            &&& !reply.success_spec()
            &&& final(store).same(old(store))
        } else {
            &&& reply.is_done(Some("Land deleted successfully"@))
            &&& final(store).deleted(old(store), Table::Land, id as int)
        },
{
    match land::delete_land(id, DeleteStage::Begin) {
        DeleteNext::Find(key) => {
            let found = store.lands.get(key);
            match land::delete_land(id, DeleteStage::Found(Ok(found))) {
                DeleteNext::Delete(row) => {
                    let outcome = store.delete(Table::Land, row.id);
                    match land::delete_land(id, DeleteStage::Deleted(outcome)) {
                        DeleteNext::Reply(reply) => reply,
                        _ => unreached(),
                    }
                },
                DeleteNext::Reply(reply) => reply,
                DeleteNext::Find(_) => unreached(),
            }
        },
        _ => unreached(),
    }
}

} // verus!
