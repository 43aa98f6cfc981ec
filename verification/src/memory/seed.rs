//! Handlers for seeds, run against the in-memory store.

use vstd::prelude::*;
use vstd::pervasive::unreached;
use crate::handlers::seed;
use crate::handlers::{CreateNext, CreateStage, DeleteNext, DeleteStage, FindNext, FindStage, ListNext, ListStage, UpdateNext, UpdateStage};
use crate::models::seed::Model;
use crate::response::{Reply, Status};
use crate::schema::{Row, Table};
use crate::store::rows::{lookup, selected};
use crate::store::Store;

verus! {

/// Creates a seed. Where the store takes the row, the reply carries it under
/// its new key, it is the last row of its table and the row that its key looks
/// up, and nothing else has changed; where the store refuses it, the reply is a
/// failure and nothing has changed.
pub fn create_seed(store: &mut Store, form: &seed::CreateSeedRequest) -> (reply: Reply<Model>)
    requires
        old(store).wf(),
    ensures
        final(store).wf(),
        if old(store).admits_seed(seed::draft(*form)) {
            let row = seed::draft(*form).keyed(old(store).seeds.next as int);
            &&& reply.is_data(Some("Seed created successfully"@), row)
            &&& final(store).seeds.rows@ == old(store).seeds.rows@.push(row)
            &&& final(store).seeds.next == old(store).seeds.next + 1
            &&& lookup(final(store).seeds.rows@, row.key()) == Some(row)
            &&& final(store).same_but(old(store), Table::Seed)
        } else {
            &&& reply.status == Status::InternalServerError
            &&& !reply.success_spec()
            &&& final(store).same(old(store))
        },
{
    match seed::create_seed(form, CreateStage::Begin) {
        CreateNext::Insert(row) => {
            let outcome = store.insert_seed(row);
            match seed::create_seed(form, CreateStage::Inserted(outcome)) {
                CreateNext::Reply(reply) => reply,
                CreateNext::Insert(_) => unreached(),
            }
        },
        CreateNext::Reply(_) => unreached(),
    }
}

/// Lists all seeds, in the order of insertion: the reply carries copies of
/// exactly those rows.
pub fn get_seeds(store: &Store) -> (reply: Reply<Vec<Model>>)
    ensures
        reply.has_data(None),
        reply.payload()@ == selected(store.seeds.rows@, None),
{
    match seed::get_seeds(ListStage::Begin) {
        ListNext::Select(selection) => {
            let rows = store.seeds.select(selection.parent);
            match seed::get_seeds(ListStage::Listed(Ok(rows))) {
                ListNext::Reply(reply) => reply,
                ListNext::Select(_) => unreached(),
            }
        },
        ListNext::Reply(_) => unreached(),
    }
}

/// Returns the seed that the key looks up, or answers that there is none.
pub fn get_seed_by_id(store: &Store, id: i32) -> (reply: Reply<Model>)
    requires
        store.wf(),
    ensures
        match lookup(store.seeds.rows@, id as int) {
            Some(row) => reply.is_data(None, row),
            None => reply.is_error(Status::NotFound, "Seed not found"@),
        },
{
    match seed::get_seed_by_id(id, FindStage::Begin) {
        FindNext::Find(key) => {
            let found = store.seeds.get(key);
            match seed::get_seed_by_id(id, FindStage::Found(Ok(found))) {
                FindNext::Reply(reply) => reply,
                FindNext::Find(_) => unreached(),
            }
        },
        FindNext::Reply(_) => unreached(),
    }
}

/// Changes a seed. Where the row exists and the store takes the changed row,
/// the reply carries it, it stands in the place of the stored row, and no other
/// row has changed; where there is no such row the reply says so, where the
/// store refuses the change the reply is a failure, and either way nothing has
/// changed.
pub fn update_seed(store: &mut Store, id: i32, form: &seed::UpdateSeedRequest) -> (reply: Reply<Model>)
    requires
        old(store).wf(),
    ensures
        final(store).wf(),
        match lookup(old(store).seeds.rows@, id as int) {
            None => reply.is_error(Status::NotFound, "Seed not found"@) && final(store).same(old(store)),
            Some(stored) => {
                let row = seed::patched(stored, *form);
                if old(store).permits_seed(row) {
                    &&& reply.is_data(Some("Seed updated successfully"@), row)
                    &&& lookup(final(store).seeds.rows@, row.key()) == Some(row)
                    &&& final(store).seeds.rows@.len() == old(store).seeds.rows@.len()
                    &&& forall|i: int|
                        0 <= i < old(store).seeds.rows@.len() ==> #[trigger] final(store).seeds.rows@[i]
                            == if old(store).seeds.rows@[i].key() == row.key() {
                            row
                        } else {
                            old(store).seeds.rows@[i]
                        }
                    &&& final(store).seeds.next == old(store).seeds.next
                    &&& final(store).same_but(old(store), Table::Seed)
                } else {
                    &&& reply.status == Status::InternalServerError
                    &&& !reply.success_spec()
                    &&& final(store).same(old(store))
                }
            },
        },
{
    match seed::update_seed(id, form, UpdateStage::Begin) {
        UpdateNext::Find(key) => {
            let found = store.seeds.get(key);
            match seed::update_seed(id, form, UpdateStage::Found(Ok(found))) {
                UpdateNext::Save(row) => {
                    let outcome = store.update_seed(row);
                    match seed::update_seed(id, form, UpdateStage::Saved(outcome)) {
                        UpdateNext::Reply(reply) => reply,
                        _ => unreached(),
                    }
                },
                UpdateNext::Reply(reply) => reply,
                UpdateNext::Find(_) => unreached(),
            }
        },
        _ => unreached(),
    }
}

/// Deletes a seed and the rows that follow it. The reply is a success only if
/// the row existed and the store removed it; where there is no such row the
/// reply says so, where the store refuses the delete the reply is a failure,
/// and either way nothing has changed.
pub fn delete_seed(store: &mut Store, id: i32) -> (reply: Reply<()>)
    requires
        old(store).wf(),
    ensures
        final(store).wf(),
        if !old(store).has(Table::Seed, id as int) {
            reply.is_error(Status::NotFound, "Seed not found"@) && final(store).same(old(store))
        } else if old(store).blocked(Table::Seed, id as int) {
            &&& reply.status == Status::InternalServerError
            &&& !reply.success_spec()
            &&& final(store).same(old(store))
        } else {
            &&& reply.is_done(Some("Seed deleted successfully"@))
            &&& final(store).deleted(old(store), Table::Seed, id as int)
        },
{
    match seed::delete_seed(id, DeleteStage::Begin) {
        DeleteNext::Find(key) => {
            let found = store.seeds.get(key);
            match seed::delete_seed(id, DeleteStage::Found(Ok(found))) {
                DeleteNext::Delete(row) => {
                    let outcome = store.delete(Table::Seed, row.id);
                    match seed::delete_seed(id, DeleteStage::Deleted(outcome)) {
                        DeleteNext::Reply(reply) => reply,
                        _ => unreached(),
                    }
                },
                DeleteNext::Reply(reply) => reply,
                DeleteNext::Find(_) => unreached(),
            }
        },
        _ => unreached(),
    }
}

} // verus!
