//! Handlers for land plots.

use vstd::prelude::*;
use crate::handlers::{CreateNext, CreateStage, DeleteNext, DeleteStage, FindNext, FindStage, ListNext, ListStage, Parent, Selection, UpdateNext, UpdateStage};
use crate::models::land::Model;
use crate::response::{Reply, Status};
use crate::schema::Table;
use crate::values::Real;

verus! {

/// What a request to create a land plot carries.
#[derive(Debug, PartialEq, Eq)]
pub struct CreateLandRequest {
    pub location_name: String,
    pub size: Real,
    pub user_id: i32,
}

/// What a request to change a land plot carries. A field that is absent keeps
/// its stored value.
#[derive(Debug, PartialEq, Eq)]
pub struct UpdateLandRequest {
    pub location_name: Option<String>,
    pub size: Option<Real>,
    pub user_id: Option<i32>,
}

/// The row that a create request describes, before the store has given it a
/// key.
pub open spec fn draft(form: CreateLandRequest) -> Model {
    Model {
        id: 0,
        location_name: form.location_name,
        size: form.size,
        user_id: form.user_id,
    }
}

/// Creates a land plot: inserts the row that the request describes and answers
/// with the row as the store holds it.
pub fn create_land(form: &CreateLandRequest, stage: CreateStage<Model>) -> (next: CreateNext<Model, Model>)
    ensures
        match stage {
            CreateStage::Begin => next == CreateNext::<Model, Model>::Insert(draft(*form)),
            CreateStage::Inserted(Ok(row)) => next matches CreateNext::Reply(r) && r.is_data(
                Some("Land created successfully"@),
                row,
            ),
            CreateStage::Inserted(Err(e)) => next matches CreateNext::Reply(r) && r.is_error(
                Status::InternalServerError,
                e.report_spec(),
            ),
        },
{
    match stage {
        CreateStage::Begin => CreateNext::Insert(
            Model {
                id: 0,
                location_name: form.location_name.clone(),
                size: form.size,
                user_id: form.user_id,
            },
        ),
        CreateStage::Inserted(Ok(row)) => CreateNext::Reply(Reply::data_with("Land created successfully", row)),
        CreateStage::Inserted(Err(e)) => CreateNext::Reply(Reply::server_error(e.report())),
    }
}

/// Lists the land plots of one user, in the order of insertion.
pub fn get_user_lands(user_id: i32, stage: ListStage<Model>) -> (next: ListNext<Vec<Model>>)
    ensures
        match stage {
            ListStage::Begin => next == ListNext::<Vec<Model>>::Select(
                Selection { parent: Some(Parent { table: Table::User, key: user_id })},
            ),
            ListStage::Listed(Ok(rows)) => next matches ListNext::Reply(r) && r.is_data(None, rows),
            ListStage::Listed(Err(e)) => next matches ListNext::Reply(r) && r.is_error(
                Status::InternalServerError,
                e.report_spec(),
            ),
        },
{
    match stage {
        ListStage::Begin => ListNext::Select(Selection { parent: Some(Parent { table: Table::User, key: user_id })}),
        ListStage::Listed(Ok(rows)) => ListNext::Reply(Reply::data(rows)),
        ListStage::Listed(Err(e)) => ListNext::Reply(Reply::server_error(e.report())),
    }
}

/// Returns the land plot with the given key, or answers that there is none.
pub fn get_land_by_id(id: i32, stage: FindStage<Model>) -> (next: FindNext<Model>)
    ensures
        match stage {
            FindStage::Begin => next == FindNext::<Model>::Find(id),
            FindStage::Found(Ok(Some(row))) => next matches FindNext::Reply(r) && r.is_data(None, row),
            FindStage::Found(Ok(None)) => next matches FindNext::Reply(r) && r.is_error(
                Status::NotFound,
                "Land not found"@,
            ),
            FindStage::Found(Err(e)) => next matches FindNext::Reply(r) && r.is_error(
                Status::InternalServerError,
                e.report_spec(),
            ),
        },
{
    match stage {
        FindStage::Begin => FindNext::Find(id),
        FindStage::Found(Ok(Some(row))) => FindNext::Reply(Reply::data(row)),
        FindStage::Found(Ok(None)) => FindNext::Reply(Reply::not_found("Land not found")),
        FindStage::Found(Err(e)) => FindNext::Reply(Reply::server_error(e.report())),
    }
}

/// The stored row after a change request has been applied to it: each field
/// that the request carries takes the request's value, every other field keeps
/// its own.
pub open spec fn patched(stored: Model, form: UpdateLandRequest) -> Model {
    Model {
        id: stored.id,
        location_name: match form.location_name {
            Some(v) => v,
            None => stored.location_name,
        },
        size: match form.size {
            Some(v) => v,
            None => stored.size,
        },
        user_id: match form.user_id {
            Some(v) => v,
            None => stored.user_id,
        },
    }
}

/// Changes a land plot: looks the row up, applies the request to it, writes it
/// back and answers with the row as the store holds it.
pub fn update_land(id: i32, form: &UpdateLandRequest, stage: UpdateStage<Model>) -> (next: UpdateNext<
    Model,
    Model,
>)
    ensures
        match stage {
            UpdateStage::Begin => next == UpdateNext::<Model, Model>::Find(id),
            UpdateStage::Found(Ok(Some(stored))) => next == UpdateNext::<Model, Model>::Save(
                patched(stored, *form),
            ),
            UpdateStage::Found(Ok(None)) => next matches UpdateNext::Reply(r) && r.is_error(
                Status::NotFound,
                "Land not found"@,
            ),
            UpdateStage::Found(Err(e)) => next matches UpdateNext::Reply(r) && r.is_error(
                Status::InternalServerError,
                e.report_spec(),
            ),
            UpdateStage::Saved(Ok(row)) => next matches UpdateNext::Reply(r) && r.is_data(
                Some("Land updated successfully"@),
                row,
            ),
            UpdateStage::Saved(Err(e)) => next matches UpdateNext::Reply(r) && r.is_error(
                Status::InternalServerError,
                e.report_spec(),
            ),
        },
{
    match stage {
        UpdateStage::Begin => UpdateNext::Find(id),
        UpdateStage::Found(Ok(Some(stored))) => UpdateNext::Save(
            Model {
                id: stored.id,
                location_name: match &form.location_name {
                    Some(v) => v.clone(),
                    None => stored.location_name,
                },
                size: match form.size {
                    Some(v) => v,
                    None => stored.size,
                },
                user_id: match form.user_id {
                    Some(v) => v,
                    None => stored.user_id,
                },
            },
        ),
        UpdateStage::Found(Ok(None)) => UpdateNext::Reply(Reply::not_found("Land not found")),
        UpdateStage::Found(Err(e)) => UpdateNext::Reply(Reply::server_error(e.report())),
        UpdateStage::Saved(Ok(row)) => UpdateNext::Reply(Reply::data_with("Land updated successfully", row)),
        UpdateStage::Saved(Err(e)) => UpdateNext::Reply(Reply::server_error(e.report())),
    }
}

/// Deletes a land plot: looks the row up, deletes it and answers with success
/// only if the store removed a row.
pub fn delete_land(id: i32, stage: DeleteStage<Model>) -> (next: DeleteNext<Model, ()>)
    ensures
        match stage {
            DeleteStage::Begin => next == DeleteNext::<Model, ()>::Find(id),
            DeleteStage::Found(Ok(Some(row))) => next == DeleteNext::<Model, ()>::Delete(row),
            DeleteStage::Found(Ok(None)) => next matches DeleteNext::Reply(r) && r.is_error(
                Status::NotFound,
                "Land not found"@,
            ),
            DeleteStage::Found(Err(e)) => next matches DeleteNext::Reply(r) && r.is_error(
                Status::InternalServerError,
                e.report_spec(),
            ),
            DeleteStage::Deleted(Ok(n)) => next matches DeleteNext::Reply(r) && if n > 0 {
                r.is_done(Some("Land deleted successfully"@))
            } else {
                r.is_error(Status::NotFound, "Land not found or already deleted"@)
            },
            DeleteStage::Deleted(Err(e)) => next matches DeleteNext::Reply(r) && r.is_error(
                Status::InternalServerError,
                e.report_spec(),
            ),
        },
{
    match stage {
        DeleteStage::Begin => DeleteNext::Find(id),
        DeleteStage::Found(Ok(Some(row))) => DeleteNext::Delete(row),
        DeleteStage::Found(Ok(None)) => DeleteNext::Reply(Reply::not_found("Land not found")),
        DeleteStage::Found(Err(e)) => DeleteNext::Reply(Reply::server_error(e.report())),
        DeleteStage::Deleted(Ok(n)) => if n > 0 {
            DeleteNext::Reply(Reply::done_with("Land deleted successfully"))
        } else {
            DeleteNext::Reply(Reply::not_found("Land not found or already deleted"))
        },
        DeleteStage::Deleted(Err(e)) => DeleteNext::Reply(Reply::server_error(e.report())),
    }
}

} // verus!
