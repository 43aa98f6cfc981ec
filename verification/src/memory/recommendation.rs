//! Handlers for recommendations, run against the in-memory store.

use vstd::prelude::*;
use vstd::pervasive::unreached;
use crate::handlers::recommendation;
use crate::handlers::{CreateNext, CreateStage, EraseNext, EraseStage, FindNext, FindStage, ListNext, ListStage, UpdateNext, UpdateStage};
use crate::models::recommendation::Model;
use crate::response::{Reply, Status};
use crate::schema::{Row, Table};
use crate::store::rows::{lookup, selected};
use crate::store::Store;

verus! {

/// Creates a recommendation. Where the store takes the row, the reply carries
/// it under its new key, it is the last row of its table and the row that its
/// key looks up, and nothing else has changed; where the store refuses it, the
/// reply is a failure and nothing has changed.
pub fn create_recommendation(store: &mut Store, form: &recommendation::CreateRecRequest) -> (reply: Reply<Model>)
    requires
        old(store).wf(),
    ensures
        final(store).wf(),
        if old(store).admits_recommendation(recommendation::draft(*form)) {
            let row = recommendation::draft(*form).keyed(old(store).recommendations.next as int);
            &&& reply.is_data(Some("Recommendation created successfully"@), row)
            &&& final(store).recommendations.rows@ == old(store).recommendations.rows@.push(row)
            &&& final(store).recommendations.next == old(store).recommendations.next + 1
            &&& lookup(final(store).recommendations.rows@, row.key()) == Some(row)
            &&& final(store).same_but(old(store), Table::Recommendation)
        } else {
            &&& reply.status == Status::InternalServerError
            &&& !reply.success_spec()
            &&& final(store).same(old(store))
        },
{
    match recommendation::create_recommendation(form, CreateStage::Begin) {
        CreateNext::Insert(row) => {
            let outcome = store.insert_recommendation(row);
            match recommendation::create_recommendation(form, CreateStage::Inserted(outcome)) {
                CreateNext::Reply(reply) => reply,
                CreateNext::Insert(_) => unreached(),
            }
        },
        CreateNext::Reply(_) => unreached(),
    }
}

/// Lists all recommendations, in the order of insertion: the reply carries
/// copies of exactly those rows.
pub fn get_recommendations(store: &Store) -> (reply: Reply<Vec<Model>>)
    ensures
        reply.has_data(None),
        reply.payload()@ == selected(store.recommendations.rows@, None),
{
    match recommendation::get_recommendations(ListStage::Begin) {
        ListNext::Select(selection) => {
            let rows = store.recommendations.select(selection.parent);
            match recommendation::get_recommendations(ListStage::Listed(Ok(rows))) {
                ListNext::Reply(reply) => reply,
                ListNext::Select(_) => unreached(),
            }
        },
        ListNext::Reply(_) => unreached(),
    }
}

/// Returns the recommendation that the key looks up, or answers that there is
/// none.
pub fn get_recommendation_by_id(store: &Store, id: i32) -> (reply: Reply<Model>)
    requires
        store.wf(),
    ensures
        match lookup(store.recommendations.rows@, id as int) {
            Some(row) => reply.is_data(None, row),
            None => reply.is_error(Status::NotFound, "Not found"@),
        },
{
    match recommendation::get_recommendation_by_id(id, FindStage::Begin) {
        FindNext::Find(key) => {
            let found = store.recommendations.get(key);
            match recommendation::get_recommendation_by_id(id, FindStage::Found(Ok(found))) {
                FindNext::Reply(reply) => reply,
                FindNext::Find(_) => unreached(),
            }
        },
        FindNext::Reply(_) => unreached(),
    }
}

/// Changes a recommendation. Where the row exists and the store takes the
/// changed row, the reply carries it, it stands in the place of the stored row,
/// and no other row has changed; where there is no such row the reply says so,
/// where the store refuses the change the reply is a failure, and either way
/// nothing has changed.
pub fn update_recommendation(store: &mut Store, id: i32, form: &recommendation::UpdateRecRequest) -> (reply: Reply<Model>)
    requires
        old(store).wf(),
    ensures
        final(store).wf(),
        match lookup(old(store).recommendations.rows@, id as int) {
            None => reply.is_error(Status::NotFound, "Not found"@) && final(store).same(old(store)),
            Some(stored) => {
                let row = recommendation::patched(stored, *form);
                if old(store).permits_recommendation(row) {
                    &&& reply.is_data(Some("Recommendation updated successfully"@), row)
                    &&& lookup(final(store).recommendations.rows@, row.key()) == Some(row)
                    &&& final(store).recommendations.rows@.len() == old(store).recommendations.rows@.len()
                    &&& forall|i: int|
                        0 <= i < old(store).recommendations.rows@.len() ==> #[trigger] final(store).recommendations.rows@[i]
                            == if old(store).recommendations.rows@[i].key() == row.key() {
                            row
                        } else {
                            old(store).recommendations.rows@[i]
                        }
                    &&& final(store).recommendations.next == old(store).recommendations.next
                    &&& final(store).same_but(old(store), Table::Recommendation)
                } else {
                    &&& reply.status == Status::InternalServerError
                    &&& !reply.success_spec()
                    &&& final(store).same(old(store))
                }
            },
        },
{
    match recommendation::update_recommendation(id, form, UpdateStage::Begin) {
        UpdateNext::Find(key) => {
            let found = store.recommendations.get(key);
            match recommendation::update_recommendation(id, form, UpdateStage::Found(Ok(found))) {
                UpdateNext::Save(row) => {
                    let outcome = store.update_recommendation(row);
                    match recommendation::update_recommendation(id, form, UpdateStage::Saved(outcome)) {
                        UpdateNext::Reply(reply) => reply,
                        _ => unreached(),
                    }
                },
                UpdateNext::Reply(reply) => reply,
                UpdateNext::Find(_) => unreached(),
            }
        },
        _ => unreached(),
    }
}

/// Deletes a recommendation and the rows that follow it. The reply is a success
/// only if the row existed and the store removed it; where there is no such row
/// the reply says so, where the store refuses the delete the reply is a
/// failure, and either way nothing has changed.
pub fn delete_recommendation(store: &mut Store, id: i32) -> (reply: Reply<()>)
    requires
        old(store).wf(),
    ensures
        final(store).wf(),
        if !old(store).has(Table::Recommendation, id as int) {
            reply.is_error(Status::NotFound, "Not found"@) && final(store).same(old(store))
        } else if old(store).blocked(Table::Recommendation, id as int) {
            &&& reply.status == Status::InternalServerError
            &&& !reply.success_spec()
            &&& final(store).same(old(store))
        } else {
            &&& reply.is_done(Some("Deleted"@))
            &&& final(store).deleted(old(store), Table::Recommendation, id as int)
        },
{
    match recommendation::delete_recommendation(id, EraseStage::Begin) {
        EraseNext::Delete(key) => {
            let outcome = store.delete(Table::Recommendation, key);
            match recommendation::delete_recommendation(id, EraseStage::Deleted(outcome)) {
                EraseNext::Reply(reply) => reply,
                EraseNext::Delete(_) => unreached(),
            }
        },
        EraseNext::Reply(_) => unreached(),
    }
}

} // verus!
