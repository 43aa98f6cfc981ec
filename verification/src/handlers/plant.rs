//! Handlers for plants.

use vstd::prelude::*;
use crate::handlers::{CreateNext, CreateStage, DeleteNext, DeleteStage, FindNext, FindStage, ListNext, ListStage, Parent, Selection, UpdateNext, UpdateStage};
use crate::models::plant::Model;
use crate::response::{Reply, Status};
use crate::schema::Table;
use crate::values::Timestamp;

verus! {

/// What a request to create a plant carries.
#[derive(Debug, PartialEq, Eq)]
pub struct CreatePlantRequest {
    pub name: String,
    pub quantity: i32,
    pub land_id: i32,
    pub seed_id: i32,
    pub planted_at: Timestamp,
}

/// What a request to change a plant carries. A field that is absent keeps its
/// stored value.
#[derive(Debug, PartialEq, Eq)]
pub struct UpdatePlantRequest {
    pub name: Option<String>,
    pub quantity: Option<i32>,
    pub land_id: Option<i32>,
    pub planted_at: Option<Timestamp>,
}

/// The row that a create request describes, before the store has given it a
/// key.
pub open spec fn draft(form: CreatePlantRequest) -> Model {
    Model {
        id: 0,
        name: form.name,
        quantity: form.quantity,
        land_id: form.land_id,
        seed_id: form.seed_id,
        planted_at: form.planted_at,
    }
}

/// Creates a plant: inserts the row that the request describes and answers with
/// the row as the store holds it.
pub fn create_plant(form: &CreatePlantRequest, stage: CreateStage<Model>) -> (next: CreateNext<Model, Model>)
    ensures
        match stage {
            CreateStage::Begin => next == CreateNext::<Model, Model>::Insert(draft(*form)),
            CreateStage::Inserted(Ok(row)) => next matches CreateNext::Reply(r) && r.is_data(
                Some("Plant created successfully"@),
                row,
            ),
            CreateStage::Inserted(Err(e)) => next matches CreateNext::Reply(r) && r.is_error(
                Status::InternalServerError,
                e.report_spec(),
            ),
        },
{
    match stage {
        CreateStage::Begin => CreateNext::Insert(
            Model {
                id: 0,
                name: form.name.clone(),
                quantity: form.quantity,
                land_id: form.land_id,
                seed_id: form.seed_id,
                planted_at: form.planted_at,
            },
        ),
        CreateStage::Inserted(Ok(row)) => CreateNext::Reply(Reply::data_with("Plant created successfully", row)),
        CreateStage::Inserted(Err(e)) => CreateNext::Reply(Reply::server_error(e.report())),
    }
}

/// Lists the plants of one land plot, in the order of insertion.
pub fn get_plants_by_land(land_id: i32, stage: ListStage<Model>) -> (next: ListNext<Vec<Model>>)
    ensures
        match stage {
            ListStage::Begin => next == ListNext::<Vec<Model>>::Select(
                Selection { parent: Some(Parent { table: Table::Land, key: land_id })},
            ),
            ListStage::Listed(Ok(rows)) => next matches ListNext::Reply(r) && r.is_data(None, rows),
            ListStage::Listed(Err(e)) => next matches ListNext::Reply(r) && r.is_error(
                Status::InternalServerError,
                e.report_spec(),
            ),
        },
{
    match stage {
        ListStage::Begin => ListNext::Select(Selection { parent: Some(Parent { table: Table::Land, key: land_id })}),
        ListStage::Listed(Ok(rows)) => ListNext::Reply(Reply::data(rows)),
        ListStage::Listed(Err(e)) => ListNext::Reply(Reply::server_error(e.report())),
    }
}

/// Returns the plant with the given key, or answers that there is none.
pub fn get_plant_by_id(id: i32, stage: FindStage<Model>) -> (next: FindNext<Model>)
    ensures
        match stage {
            FindStage::Begin => next == FindNext::<Model>::Find(id),
            FindStage::Found(Ok(Some(row))) => next matches FindNext::Reply(r) && r.is_data(None, row),
            FindStage::Found(Ok(None)) => next matches FindNext::Reply(r) && r.is_error(
                Status::NotFound,
                "Plant not found"@,
            ),
            FindStage::Found(Err(e)) => next matches FindNext::Reply(r) && r.is_error(
                Status::InternalServerError,
                e.report_spec(),
            ),
        },
{
    match stage {
        FindStage::Begin => FindNext::Find(id),
        FindStage::Found(Ok(Some(row))) => FindNext::Reply(Reply::data(row)),
        FindStage::Found(Ok(None)) => FindNext::Reply(Reply::not_found("Plant not found")),
        FindStage::Found(Err(e)) => FindNext::Reply(Reply::server_error(e.report())),
    }
}

/// The stored row after a change request has been applied to it: each field
/// that the request carries takes the request's value, every other field keeps
/// its own.
pub open spec fn patched(stored: Model, form: UpdatePlantRequest) -> Model {
    Model {
        id: stored.id,
        name: match form.name {
            Some(v) => v,
            None => stored.name,
        },
        quantity: match form.quantity {
            Some(v) => v,
            None => stored.quantity,
        },
        land_id: match form.land_id {
            Some(v) => v,
            None => stored.land_id,
        },
        seed_id: stored.seed_id,
        planted_at: match form.planted_at {
            Some(v) => v,
            None => stored.planted_at,
        },
    }
}

/// Changes a plant: looks the row up, applies the request to it, writes it back
/// and answers with the row as the store holds it.
pub fn update_plant(id: i32, form: &UpdatePlantRequest, stage: UpdateStage<Model>) -> (next: UpdateNext<
    Model,
    Model,
>)
    ensures
        match stage {
            UpdateStage::Begin => next == UpdateNext::<Model, Model>::Find(id),
            UpdateStage::Found(Ok(Some(stored))) => next == UpdateNext::<Model, Model>::Save(
                patched(stored, *form),
            ),
            UpdateStage::Found(Ok(None)) => next matches UpdateNext::Reply(r) && r.is_error(
                Status::NotFound,
                "Plant not found"@,
            ),
            UpdateStage::Found(Err(e)) => next matches UpdateNext::Reply(r) && r.is_error(
                Status::InternalServerError,
                e.report_spec(),
            ),
            UpdateStage::Saved(Ok(row)) => next matches UpdateNext::Reply(r) && r.is_data(
                Some("Plant updated successfully"@),
                row,
            ),
            UpdateStage::Saved(Err(e)) => next matches UpdateNext::Reply(r) && r.is_error(
                Status::InternalServerError,
                e.report_spec(),
            ),
        },
{
    match stage {
        UpdateStage::Begin => UpdateNext::Find(id),
        UpdateStage::Found(Ok(Some(stored))) => UpdateNext::Save(
            Model {
                id: stored.id,
                name: match &form.name {
                    Some(v) => v.clone(),
                    None => stored.name,
                },
                quantity: match form.quantity {
                    Some(v) => v,
                    None => stored.quantity,
                },
                land_id: match form.land_id {
                    Some(v) => v,
                    None => stored.land_id,
                },
                seed_id: stored.seed_id,
                planted_at: match form.planted_at {
                    Some(v) => v,
                    None => stored.planted_at,
                },
            },
        ),
        UpdateStage::Found(Ok(None)) => UpdateNext::Reply(Reply::not_found("Plant not found")),
        UpdateStage::Found(Err(e)) => UpdateNext::Reply(Reply::server_error(e.report())),
        UpdateStage::Saved(Ok(row)) => UpdateNext::Reply(Reply::data_with("Plant updated successfully", row)),
        UpdateStage::Saved(Err(e)) => UpdateNext::Reply(Reply::server_error(e.report())),
    }
}

/// Deletes a plant: looks the row up, deletes it and answers with success only
/// if the store removed a row.
pub fn delete_plant(id: i32, stage: DeleteStage<Model>) -> (next: DeleteNext<Model, ()>)
    ensures
        match stage {
            DeleteStage::Begin => next == DeleteNext::<Model, ()>::Find(id),
            DeleteStage::Found(Ok(Some(row))) => next == DeleteNext::<Model, ()>::Delete(row),
            DeleteStage::Found(Ok(None)) => next matches DeleteNext::Reply(r) && r.is_error(
                Status::NotFound,
                "Plant not found"@,
            ),
            DeleteStage::Found(Err(e)) => next matches DeleteNext::Reply(r) && r.is_error(
                Status::InternalServerError,
                e.report_spec(),
            ),
            DeleteStage::Deleted(Ok(n)) => next matches DeleteNext::Reply(r) && if n > 0 {
                r.is_done(Some("Plant deleted successfully"@))
            } else {
                r.is_error(Status::NotFound, "Plant not found or already deleted"@)
            },
            DeleteStage::Deleted(Err(e)) => next matches DeleteNext::Reply(r) && r.is_error(
                Status::InternalServerError,
                e.report_spec(),
            ),
        },
{
    match stage {
        DeleteStage::Begin => DeleteNext::Find(id),
        DeleteStage::Found(Ok(Some(row))) => DeleteNext::Delete(row),
        DeleteStage::Found(Ok(None)) => DeleteNext::Reply(Reply::not_found("Plant not found")),
        DeleteStage::Found(Err(e)) => DeleteNext::Reply(Reply::server_error(e.report())),
        DeleteStage::Deleted(Ok(n)) => if n > 0 {
            DeleteNext::Reply(Reply::done_with("Plant deleted successfully"))
        } else {
            DeleteNext::Reply(Reply::not_found("Plant not found or already deleted"))
        },
        DeleteStage::Deleted(Err(e)) => DeleteNext::Reply(Reply::server_error(e.report())),
    }
}

} // verus!
