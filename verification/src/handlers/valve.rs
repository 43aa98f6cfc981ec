//! Handlers for irrigation valves.

use vstd::prelude::*;
use crate::handlers::{CreateNext, CreateStage, EraseNext, EraseStage, FindNext, FindStage, ListNext, ListStage, Parent, Selection, UpdateNext, UpdateStage};
use crate::models::valve::Model;
use crate::response::{Reply, Status};
use crate::schema::Table;

verus! {

/// What a request to create a valve carries.
#[derive(Debug, PartialEq, Eq)]
pub struct CreateValveRequest {
    pub name: String,
    pub land_id: i32,
}

/// What a request to change a valve carries. A field that is absent keeps its
/// stored value.
#[derive(Debug, PartialEq, Eq)]
pub struct UpdateValveRequest {
    pub name: Option<String>,
}

/// The row that a create request describes, before the store has given it a
/// key.
pub open spec fn draft(form: CreateValveRequest) -> Model {
    Model {
        id: 0,
        name: form.name,
        land_id: form.land_id,
    }
}

/// Creates a valve: inserts the row that the request describes and answers with
/// the row as the store holds it.
pub fn create_valve(form: &CreateValveRequest, stage: CreateStage<Model>) -> (next: CreateNext<Model, Model>)
    ensures
        match stage {
            CreateStage::Begin => next == CreateNext::<Model, Model>::Insert(draft(*form)),
            CreateStage::Inserted(Ok(row)) => next matches CreateNext::Reply(r) && r.is_data(
                None,
                row,
            ),
            CreateStage::Inserted(Err(e)) => next matches CreateNext::Reply(r) && r.is_error(
                Status::InternalServerError,
                e.display@,
            ),
        },
{
    match stage {
        CreateStage::Begin => CreateNext::Insert(
            Model {
                id: 0,
                name: form.name.clone(),
                land_id: form.land_id,
            },
        ),
        CreateStage::Inserted(Ok(row)) => CreateNext::Reply(Reply::data(row)),
        CreateStage::Inserted(Err(e)) => CreateNext::Reply(Reply::server_error(e.to_string())),
    }
}

/// Lists the valves of one land plot, in the order of insertion.
pub fn get_valves_by_land(land_id: i32, stage: ListStage<Model>) -> (next: ListNext<Vec<Model>>)
    ensures
        match stage {
            ListStage::Begin => next == ListNext::<Vec<Model>>::Select(
                Selection { parent: Some(Parent { table: Table::Land, key: land_id })},
            ),
            ListStage::Listed(Ok(rows)) => next matches ListNext::Reply(r) && r.is_data(None, rows),
            ListStage::Listed(Err(e)) => next matches ListNext::Reply(r) && r.is_error(
                Status::InternalServerError,
                e.display@,
            ),
        },
{
    match stage {
        ListStage::Begin => ListNext::Select(Selection { parent: Some(Parent { table: Table::Land, key: land_id })}),
        ListStage::Listed(Ok(rows)) => ListNext::Reply(Reply::data(rows)),
        ListStage::Listed(Err(e)) => ListNext::Reply(Reply::server_error(e.to_string())),
    }
}

/// Returns the valve with the given key, or answers that there is none.
pub fn get_valve_by_id(id: i32, stage: FindStage<Model>) -> (next: FindNext<Model>)
    ensures
        match stage {
            FindStage::Begin => next == FindNext::<Model>::Find(id),
            FindStage::Found(Ok(Some(row))) => next matches FindNext::Reply(r) && r.is_data(None, row),
            FindStage::Found(Ok(None)) => next matches FindNext::Reply(r) && r.is_error(
                Status::NotFound,
                "Valve not found"@,
            ),
            FindStage::Found(Err(e)) => next matches FindNext::Reply(r) && r.is_error(
                Status::InternalServerError,
                e.display@,
            ),
        },
{
    match stage {
        FindStage::Begin => FindNext::Find(id),
        FindStage::Found(Ok(Some(row))) => FindNext::Reply(Reply::data(row)),
        FindStage::Found(Ok(None)) => FindNext::Reply(Reply::not_found("Valve not found")),
        FindStage::Found(Err(e)) => FindNext::Reply(Reply::server_error(e.to_string())),
    }
}

/// The stored row after a change request has been applied to it: each field
/// that the request carries takes the request's value, every other field keeps
/// its own.
pub open spec fn patched(stored: Model, form: UpdateValveRequest) -> Model {
    Model {
        id: stored.id,
        name: match form.name {
            Some(v) => v,
            None => stored.name,
        },
        land_id: stored.land_id,
    }
}

/// Changes a valve: looks the row up, applies the request to it, writes it back
/// and answers with the row as the store holds it.
pub fn update_valve(id: i32, form: &UpdateValveRequest, stage: UpdateStage<Model>) -> (next: UpdateNext<
    Model,
    Model,
>)
    ensures
        match stage {
            UpdateStage::Begin => next == UpdateNext::<Model, Model>::Find(id),
            UpdateStage::Found(Ok(Some(stored))) => next == UpdateNext::<Model, Model>::Save(
                patched(stored, *form),
            ),
            UpdateStage::Found(Ok(None)) => next matches UpdateNext::Reply(r) && r.is_error(
                Status::NotFound,
                "Valve not found"@,
            ),
            UpdateStage::Found(Err(e)) => next matches UpdateNext::Reply(r) && r.is_error(
                Status::InternalServerError,
                e.display@,
            ),
            UpdateStage::Saved(Ok(row)) => next matches UpdateNext::Reply(r) && r.is_data(
                None,
                row,
            ),
            UpdateStage::Saved(Err(e)) => next matches UpdateNext::Reply(r) && r.is_error(
                Status::InternalServerError,
                e.display@,
            ),
        },
{
    match stage {
        UpdateStage::Begin => UpdateNext::Find(id),
        UpdateStage::Found(Ok(Some(stored))) => UpdateNext::Save(
            Model {
                id: stored.id,
                name: match &form.name {
                    Some(v) => v.clone(),
                    None => stored.name,
                },
                land_id: stored.land_id,
            },
        ),
        UpdateStage::Found(Ok(None)) => UpdateNext::Reply(Reply::not_found("Valve not found")),
        UpdateStage::Found(Err(e)) => UpdateNext::Reply(Reply::server_error(e.to_string())),
        UpdateStage::Saved(Ok(row)) => UpdateNext::Reply(Reply::data(row)),
        UpdateStage::Saved(Err(e)) => UpdateNext::Reply(Reply::server_error(e.to_string())),
    }
}

/// Deletes the valve with the given key and answers with success only if the
/// store removed a row.
pub fn delete_valve(id: i32, stage: EraseStage) -> (next: EraseNext<()>)
    ensures
        match stage {
            EraseStage::Begin => next == EraseNext::<()>::Delete(id),
            EraseStage::Deleted(Ok(n)) => next matches EraseNext::Reply(r) && if n > 0 {
                r.is_done(None)
            } else {
                r.is_error(Status::NotFound, "Not found"@)
            },
            EraseStage::Deleted(Err(e)) => next matches EraseNext::Reply(r) && r.is_error(
                Status::InternalServerError,
                e.display@,
            ),
        },
{
    match stage {
        EraseStage::Begin => EraseNext::Delete(id),
        EraseStage::Deleted(Ok(n)) => if n > 0 {
            EraseNext::Reply(Reply::done())
        } else {
            EraseNext::Reply(Reply::not_found("Not found"))
        },
        EraseStage::Deleted(Err(e)) => EraseNext::Reply(Reply::server_error(e.to_string())),
    }
}

} // verus!
