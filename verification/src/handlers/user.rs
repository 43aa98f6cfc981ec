//! Handlers for user accounts. A password enters the store only as a salted
//! hash, and no reply carries it in any form.

use vstd::prelude::*;
use crate::handlers::{CreateNext, CreateStage, DeleteNext, DeleteStage, FindNext, FindStage, ListNext, ListStage, Selection, UpdateNext, UpdateStage};
use crate::models::user::Model;
use crate::password::{hash_password, at_rest, HASH_COST};
use crate::response::{Reply, Status};

verus! {

/// What a request to create a user carries.
#[derive(Debug, PartialEq, Eq)]
pub struct CreateUserRequest {
    pub username: String,
    pub password: String,
    pub user_role_id: i32,
}

/// What a request to change a user carries. A field that is absent keeps its
/// stored value.
#[derive(Debug, PartialEq, Eq)]
pub struct UpdateUserRequest {
    pub username: Option<String>,
    pub password: Option<String>,
    pub user_role_id: Option<i32>,
}

/// What a reply shows of a user: everything but the password.
#[derive(Debug, PartialEq, Eq)]
pub struct PublicUser {
    pub id: i32,
    pub username: String,
    pub user_role_id: i32,
}

/// The public part of a user row.
pub open spec fn public(user: Model) -> PublicUser {
    PublicUser { id: user.id, username: user.username, user_role_id: user.user_role_id }
}

/// The public part of a user row.
pub fn to_public(user: Model) -> (p: PublicUser)
    ensures
        p == public(user),
{
    PublicUser { id: user.id, username: user.username, user_role_id: user.user_role_id }
}

/// The public parts of user rows, in the same order.
pub fn to_public_all(users: Vec<Model>) -> (all: Vec<PublicUser>)
    ensures
        all@ == users@.map_values(|u: Model| public(u)),
{
    let mut all: Vec<PublicUser> = Vec::new();
    let mut i: usize = 0;
    while i < users.len()
        invariant
            i <= users.len(),
            all@ == users@.take(i as int).map_values(|u: Model| public(u)),
        decreases users.len() - i,
    {
        let u = &users[i];
        all.push(PublicUser { id: u.id, username: u.username.clone(), user_role_id: u.user_role_id });
        assert(users@.take(i + 1) == users@.take(i as int).push(users@[i as int]));
        assert(users@.take(i + 1).map_values(|u: Model| public(u)) == users@.take(
            i as int,
        ).map_values(|u: Model| public(u)).push(public(users@[i as int])));
        i = i + 1;
    }
    assert(users@.take(users.len() as int) == users@);
    all
}

/// The row that a create request describes once its password has been hashed,
/// before the store has given it a key.
pub open spec fn draft(form: CreateUserRequest, hash: String) -> Model {
    Model { id: 0, username: form.username, password: hash, user_role_id: form.user_role_id }
}

/// The first step of creating a user, given the outcome of hashing the
/// request's password: the insert of the row with the hash in place of the
/// password, or a failure where there is no hash.
pub fn create_user_hashed(form: &CreateUserRequest, hashed: Option<String>) -> (next: CreateNext<
    Model,
    PublicUser,
>)
    ensures
        match hashed {
            Some(h) => next == CreateNext::<Model, PublicUser>::Insert(draft(*form, h)),
            None => next matches CreateNext::Reply(r) && r.is_error(
                Status::InternalServerError,
                "Failed to hash password"@,
            ),
        },
{
    match hashed {
        Some(h) => CreateNext::Insert(
            Model {
                id: 0,
                username: form.username.clone(),
                password: h,
                user_role_id: form.user_role_id,
            },
        ),
        None => CreateNext::Reply(
            Reply::server_error("Failed to hash password".to_owned()),
        ),
    }
}

/// Creates a user: hashes the password, inserts the row and answers with the
/// public part of the row as the store holds it. The row to insert carries a
/// hash that matches the request's password; which hash is not determined,
/// and hashing may fail.
pub fn create_user(form: &CreateUserRequest, stage: CreateStage<Model>) -> (next: CreateNext<
    Model,
    PublicUser,
>)
    ensures
        match stage {
            CreateStage::Begin => {
                ||| exists|h: String|
                    at_rest(form.password@, h@) && next == CreateNext::<Model, PublicUser>::Insert(
                        draft(*form, h),
                    )
                ||| next matches CreateNext::Reply(r) && r.is_error(
                    Status::InternalServerError,
                    "Failed to hash password"@,
                )
            },
            CreateStage::Inserted(Ok(row)) => next matches CreateNext::Reply(r) && r.is_data(
                Some("User created successfully"@),
                public(row),
            ),
            CreateStage::Inserted(Err(e)) => next matches CreateNext::Reply(r) && r.is_error(
                Status::InternalServerError,
                e.report_spec(),
            ),
        },
{
    match stage {
        CreateStage::Begin => {
            let hashed = hash_password(form.password.as_str(), HASH_COST);
            create_user_hashed(form, hashed)
        },
        CreateStage::Inserted(Ok(row)) => CreateNext::Reply(
            Reply::data_with("User created successfully", to_public(row)),
        ),
        CreateStage::Inserted(Err(e)) => CreateNext::Reply(Reply::server_error(e.report())),
    }
}

/// Lists all users by their public parts, in the order of insertion.
pub fn get_users(stage: ListStage<Model>) -> (next: ListNext<Vec<PublicUser>>)
    ensures
        match stage {
            ListStage::Begin => next == ListNext::<Vec<PublicUser>>::Select(
                Selection { parent: None },
            ),
            ListStage::Listed(Ok(rows)) => next matches ListNext::Reply(r) && r.has_data(None)
                && r.payload()@ == rows@.map_values(|u: Model| public(u)),
            ListStage::Listed(Err(e)) => next matches ListNext::Reply(r) && r.is_error(
                Status::InternalServerError,
                e.report_spec(),
            ),
        },
{
    match stage {
        ListStage::Begin => ListNext::Select(Selection { parent: None }),
        ListStage::Listed(Ok(rows)) => ListNext::Reply(Reply::data(to_public_all(rows))),
        ListStage::Listed(Err(e)) => ListNext::Reply(Reply::server_error(e.report())),
    }
}

/// Returns the public part of the user with the given key, or answers that
/// there is none.
pub fn get_user_by_id(id: i32, stage: FindStage<Model>) -> (next: FindNext<PublicUser>)
    ensures
        match stage {
            FindStage::Begin => next == FindNext::<PublicUser>::Find(id),
            FindStage::Found(Ok(Some(row))) => next matches FindNext::Reply(r) && r.is_data(
                None,
                public(row),
            ),
            FindStage::Found(Ok(None)) => next matches FindNext::Reply(r) && r.is_error(
                Status::NotFound,
                "User not found"@,
            ),
            FindStage::Found(Err(e)) => next matches FindNext::Reply(r) && r.is_error(
                Status::InternalServerError,
                e.report_spec(),
            ),
        },
{
    match stage {
        FindStage::Begin => FindNext::Find(id),
        FindStage::Found(Ok(Some(row))) => FindNext::Reply(Reply::data(to_public(row))),
        FindStage::Found(Ok(None)) => FindNext::Reply(Reply::not_found("User not found")),
        FindStage::Found(Err(e)) => FindNext::Reply(Reply::server_error(e.report())),
    }
}

/// The stored row after a change request has been applied to it, where `hash`
/// is the hash of the request's password if it carries one: each field that
/// the request carries takes the request's value, the password its hash, and
/// every other field keeps its own.
pub open spec fn patched(stored: Model, form: UpdateUserRequest, hash: Option<String>) -> Model {
    Model {
        id: stored.id,
        username: match form.username {
            Some(v) => v,
            None => stored.username,
        },
        password: match hash {
            Some(h) => h,
            None => stored.password,
        },
        user_role_id: match form.user_role_id {
            Some(v) => v,
            None => stored.user_role_id,
        },
    }
}

/// The write of a user row that was found, given the outcome of hashing the
/// request's password where it carries one (`None` where hashing failed).
pub fn update_user_hashed(stored: Model, form: &UpdateUserRequest, hashed: Option<String>) -> (next:
    UpdateNext<Model, PublicUser>)
    ensures
        match (form.password, hashed) {
            (Some(_), None) => next matches UpdateNext::Reply(r) && r.is_error(
                Status::InternalServerError,
                "Failed to hash password"@,
            ),
            (Some(_), Some(h)) => next == UpdateNext::<Model, PublicUser>::Save(
                patched(stored, *form, Some(h)),
            ),
            (None, _) => next == UpdateNext::<Model, PublicUser>::Save(patched(stored, *form, None)),
        },
{
    let username = match &form.username {
        Some(v) => v.clone(),
        None => stored.username,
    };
    let user_role_id = match form.user_role_id {
        Some(v) => v,
        None => stored.user_role_id,
    };
    match (&form.password, hashed) {
        (Some(_), None) => UpdateNext::Reply(
            Reply::server_error("Failed to hash password".to_owned()),
        ),
        (Some(_), Some(h)) => UpdateNext::Save(
            Model { id: stored.id, username, password: h, user_role_id },
        ),
        (None, _) => UpdateNext::Save(
            Model { id: stored.id, username, password: stored.password, user_role_id },
        ),
    }
}

/// Changes a user: looks the row up, applies the request to it, with a new
/// password hashed first, writes it back and answers with the public part of
/// the row as the store holds it. A new password enters the row as a hash that
/// matches it; which hash is not determined, and hashing may fail.
pub fn update_user(id: i32, form: &UpdateUserRequest, stage: UpdateStage<Model>) -> (next: UpdateNext<
    Model,
    PublicUser,
>)
    ensures
        match stage {
            UpdateStage::Begin => next == UpdateNext::<Model, PublicUser>::Find(id),
            UpdateStage::Found(Ok(Some(stored))) => match form.password {
                Some(p) => {
                    ||| exists|h: String|
                        at_rest(p@, h@) && next == UpdateNext::<Model, PublicUser>::Save(
                            patched(stored, *form, Some(h)),
                        )
                    ||| next matches UpdateNext::Reply(r) && r.is_error(
                        Status::InternalServerError,
                        "Failed to hash password"@,
                    )
                },
                None => next == UpdateNext::<Model, PublicUser>::Save(
                    patched(stored, *form, None),
                ),
            },
            UpdateStage::Found(Ok(None)) => next matches UpdateNext::Reply(r) && r.is_error(
                Status::NotFound,
                "User not found"@,
            ),
            UpdateStage::Found(Err(e)) => next matches UpdateNext::Reply(r) && r.is_error(
                Status::InternalServerError,
                e.report_spec(),
            ),
            UpdateStage::Saved(Ok(row)) => next matches UpdateNext::Reply(r) && r.is_data(
                Some("User updated successfully"@),
                public(row),
            ),
            UpdateStage::Saved(Err(e)) => next matches UpdateNext::Reply(r) && r.is_error(
                Status::InternalServerError,
                e.report_spec(),
            ),
        },
{
    match stage {
        UpdateStage::Begin => UpdateNext::Find(id),
        UpdateStage::Found(Ok(Some(stored))) => {
            let hashed = match &form.password {
                Some(p) => hash_password(p.as_str(), HASH_COST),
                None => None,
            };
            update_user_hashed(stored, form, hashed)
        },
        UpdateStage::Found(Ok(None)) => UpdateNext::Reply(Reply::not_found("User not found")),
        UpdateStage::Found(Err(e)) => UpdateNext::Reply(Reply::server_error(e.report())),
        UpdateStage::Saved(Ok(row)) => UpdateNext::Reply(
            Reply::data_with("User updated successfully", to_public(row)),
        ),
        UpdateStage::Saved(Err(e)) => UpdateNext::Reply(Reply::server_error(e.report())),
    }
}

/// Deletes a user: looks the row up, deletes it and answers with success only
/// if the store removed a row.
pub fn delete_user(id: i32, stage: DeleteStage<Model>) -> (next: DeleteNext<Model, ()>)
    ensures
        match stage {
            DeleteStage::Begin => next == DeleteNext::<Model, ()>::Find(id),
            DeleteStage::Found(Ok(Some(row))) => next == DeleteNext::<Model, ()>::Delete(row),
            DeleteStage::Found(Ok(None)) => next matches DeleteNext::Reply(r) && r.is_error(
                Status::NotFound,
                "User not found"@,
            ),
            DeleteStage::Found(Err(e)) => next matches DeleteNext::Reply(r) && r.is_error(
                Status::InternalServerError,
                e.report_spec(),
            ),
            DeleteStage::Deleted(Ok(n)) => next matches DeleteNext::Reply(r) && if n > 0 {
                r.is_done(Some("User deleted successfully"@))
            } else {
                r.is_error(Status::NotFound, "User not found or already deleted"@)
            },
            DeleteStage::Deleted(Err(e)) => next matches DeleteNext::Reply(r) && r.is_error(
                Status::InternalServerError,
                e.report_spec(),
            ),
        },
{
    match stage {
        DeleteStage::Begin => DeleteNext::Find(id),
        DeleteStage::Found(Ok(Some(row))) => DeleteNext::Delete(row),
        DeleteStage::Found(Ok(None)) => DeleteNext::Reply(Reply::not_found("User not found")),
        DeleteStage::Found(Err(e)) => DeleteNext::Reply(Reply::server_error(e.report())),
        DeleteStage::Deleted(Ok(n)) => if n > 0 {
            DeleteNext::Reply(Reply::done_with("User deleted successfully"))
        } else {
            DeleteNext::Reply(Reply::not_found("User not found or already deleted"))
        },
        DeleteStage::Deleted(Err(e)) => DeleteNext::Reply(Reply::server_error(e.report())),
    }
}

} // verus!
