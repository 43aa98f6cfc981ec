//! Handlers for seeds.

use vstd::prelude::*;
use crate::handlers::{CreateNext, CreateStage, DeleteNext, DeleteStage, FindNext, FindStage, ListNext, ListStage, Selection, UpdateNext, UpdateStage};
use crate::models::seed::Model;
use crate::response::{Reply, Status};

verus! {

/// What a request to create a seed carries.
#[derive(Debug, PartialEq, Eq)]
pub struct CreateSeedRequest {
    pub name: String,
}

/// What a request to change a seed carries. A field that is absent keeps its
/// stored value.
#[derive(Debug, PartialEq, Eq)]
pub struct UpdateSeedRequest {
    pub name: Option<String>,
}

/// The row that a create request describes, before the store has given it a
/// key.
pub open spec fn draft(form: CreateSeedRequest) -> Model {
    Model {
        id: 0,
        name: form.name,
    }
}

/// Creates a seed: inserts the row that the request describes and answers with
/// the row as the store holds it.
pub fn create_seed(form: &CreateSeedRequest, stage: CreateStage<Model>) -> (next: CreateNext<Model, Model>)
    ensures
        match stage {
            CreateStage::Begin => next == CreateNext::<Model, Model>::Insert(draft(*form)),
            CreateStage::Inserted(Ok(row)) => next matches CreateNext::Reply(r) && r.is_data(
                Some("Seed created successfully"@),
                row,
            ),
            CreateStage::Inserted(Err(e)) => next matches CreateNext::Reply(r) && r.is_error(
                Status::InternalServerError,
                e.report_spec(),
            ),
        },
{
    match stage {
        CreateStage::Begin => CreateNext::Insert(
            Model {
                id: 0,
                name: form.name.clone(),
            },
        ),
        CreateStage::Inserted(Ok(row)) => CreateNext::Reply(Reply::data_with("Seed created successfully", row)),
        CreateStage::Inserted(Err(e)) => CreateNext::Reply(Reply::server_error(e.report())),
    }
}

/// Lists all seeds, in the order of insertion.
pub fn get_seeds(stage: ListStage<Model>) -> (next: ListNext<Vec<Model>>)
    ensures
        match stage {
            ListStage::Begin => next == ListNext::<Vec<Model>>::Select(
                Selection { parent: None},
            ),
            ListStage::Listed(Ok(rows)) => next matches ListNext::Reply(r) && r.is_data(None, rows),
            ListStage::Listed(Err(e)) => next matches ListNext::Reply(r) && r.is_error(
                Status::InternalServerError,
                e.report_spec(),
            ),
        },
{
    match stage {
        ListStage::Begin => ListNext::Select(Selection { parent: None}),
        ListStage::Listed(Ok(rows)) => ListNext::Reply(Reply::data(rows)),
        ListStage::Listed(Err(e)) => ListNext::Reply(Reply::server_error(e.report())),
    }
}

/// Returns the seed with the given key, or answers that there is none.
pub fn get_seed_by_id(id: i32, stage: FindStage<Model>) -> (next: FindNext<Model>)
    ensures
        match stage {
            FindStage::Begin => next == FindNext::<Model>::Find(id),
            FindStage::Found(Ok(Some(row))) => next matches FindNext::Reply(r) && r.is_data(None, row),
            FindStage::Found(Ok(None)) => next matches FindNext::Reply(r) && r.is_error(
                Status::NotFound,
                "Seed not found"@,
            ),
            FindStage::Found(Err(e)) => next matches FindNext::Reply(r) && r.is_error(
                Status::InternalServerError,
                e.report_spec(),
            ),
        },
{
    match stage {
        FindStage::Begin => FindNext::Find(id),
        FindStage::Found(Ok(Some(row))) => FindNext::Reply(Reply::data(row)),
        FindStage::Found(Ok(None)) => FindNext::Reply(Reply::not_found("Seed not found")),
        FindStage::Found(Err(e)) => FindNext::Reply(Reply::server_error(e.report())),
    }
}

/// The stored row after a change request has been applied to it: each field
/// that the request carries takes the request's value, every other field keeps
/// its own.
pub open spec fn patched(stored: Model, form: UpdateSeedRequest) -> Model {
    Model {
        id: stored.id,
        name: match form.name {
            Some(v) => v,
            None => stored.name,
        },
    }
}

/// Changes a seed: looks the row up, applies the request to it, writes it back
/// and answers with the row as the store holds it.
pub fn update_seed(id: i32, form: &UpdateSeedRequest, stage: UpdateStage<Model>) -> (next: UpdateNext<
    Model,
    Model,
>)
    ensures
        match stage {
            UpdateStage::Begin => next == UpdateNext::<Model, Model>::Find(id),
            UpdateStage::Found(Ok(Some(stored))) => next == UpdateNext::<Model, Model>::Save(
                patched(stored, *form),
            ),
            UpdateStage::Found(Ok(None)) => next matches UpdateNext::Reply(r) && r.is_error(
                Status::NotFound,
                "Seed not found"@,
            ),
            UpdateStage::Found(Err(e)) => next matches UpdateNext::Reply(r) && r.is_error(
                Status::InternalServerError,
                e.report_spec(),
            ),
            UpdateStage::Saved(Ok(row)) => next matches UpdateNext::Reply(r) && r.is_data(
                Some("Seed updated successfully"@),
                row,
            ),
            UpdateStage::Saved(Err(e)) => next matches UpdateNext::Reply(r) && r.is_error(
                Status::InternalServerError,
                e.report_spec(),
            ),
        },
{
    match stage {
        UpdateStage::Begin => UpdateNext::Find(id),
        UpdateStage::Found(Ok(Some(stored))) => UpdateNext::Save(
            Model {
                id: stored.id,
                name: match &form.name {
                    Some(v) => v.clone(),
                    None => stored.name,
                },
            },
        ),
        UpdateStage::Found(Ok(None)) => UpdateNext::Reply(Reply::not_found("Seed not found")),
        UpdateStage::Found(Err(e)) => UpdateNext::Reply(Reply::server_error(e.report())),
        UpdateStage::Saved(Ok(row)) => UpdateNext::Reply(Reply::data_with("Seed updated successfully", row)),
        UpdateStage::Saved(Err(e)) => UpdateNext::Reply(Reply::server_error(e.report())),
    }
}

/// Deletes a seed: looks the row up, deletes it and answers with success only
/// if the store removed a row.
pub fn delete_seed(id: i32, stage: DeleteStage<Model>) -> (next: DeleteNext<Model, ()>)
    ensures
        match stage {
            DeleteStage::Begin => next == DeleteNext::<Model, ()>::Find(id),
            DeleteStage::Found(Ok(Some(row))) => next == DeleteNext::<Model, ()>::Delete(row),
            DeleteStage::Found(Ok(None)) => next matches DeleteNext::Reply(r) && r.is_error(
                Status::NotFound,
                "Seed not found"@,
            ),
            DeleteStage::Found(Err(e)) => next matches DeleteNext::Reply(r) && r.is_error(
                Status::InternalServerError,
                e.report_spec(),
            ),
            DeleteStage::Deleted(Ok(n)) => next matches DeleteNext::Reply(r) && if n > 0 {
                r.is_done(Some("Seed deleted successfully"@))
            } else {
                r.is_error(Status::NotFound, "Seed not found or already deleted"@)
            },
            DeleteStage::Deleted(Err(e)) => next matches DeleteNext::Reply(r) && r.is_error(
                Status::InternalServerError,
                e.report_spec(),
            ),
        },
{
    match stage {
        DeleteStage::Begin => DeleteNext::Find(id),
        DeleteStage::Found(Ok(Some(row))) => DeleteNext::Delete(row),
        DeleteStage::Found(Ok(None)) => DeleteNext::Reply(Reply::not_found("Seed not found")),
        DeleteStage::Found(Err(e)) => DeleteNext::Reply(Reply::server_error(e.report())),
        DeleteStage::Deleted(Ok(n)) => if n > 0 {
            DeleteNext::Reply(Reply::done_with("Seed deleted successfully"))
        } else {
            DeleteNext::Reply(Reply::not_found("Seed not found or already deleted"))
        },
        DeleteStage::Deleted(Err(e)) => DeleteNext::Reply(Reply::server_error(e.report())),
    }
}

} // verus!
