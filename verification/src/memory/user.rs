//! Handlers for user accounts, run against the in-memory store.

use vstd::prelude::*;
use vstd::pervasive::unreached;
use crate::handlers::user;
use crate::handlers::user::PublicUser;
use crate::handlers::{CreateNext, CreateStage, DeleteNext, DeleteStage, FindNext, FindStage, ListNext, ListStage, UpdateNext, UpdateStage};
use crate::models::user::Model;
use crate::password::at_rest;
use crate::response::{Reply, Status};
use crate::schema::{Row, Table};
use crate::store::rows::{lemma_selected_all, lookup};
use crate::store::Store;

verus! {

/// Whether `after` and `reply` are what creating a user whose password has
/// been hashed to `hash` makes of the store `before`: where the store takes
/// the row, the reply carries its public part under its new key, it is the
/// last row of its table and the row that its key looks up, and nothing else
/// has changed; where the store refuses it, the reply is a failure and nothing
/// has changed.
pub open spec fn creates(
    before: &Store,
    after: &Store,
    form: user::CreateUserRequest,
    hash: String,
    reply: Reply<PublicUser>,
) -> bool {
    let draft = user::draft(form, hash);
    if before.admits_user(draft) {
        let row = draft.keyed(before.users.next as int);
        &&& reply.is_data(Some("User created successfully"@), user::public(row))
        &&& after.users.rows@ == before.users.rows@.push(row)
        &&& after.users.next == before.users.next + 1
        &&& lookup(after.users.rows@, row.key()) == Some(row)
        &&& after.same_but(before, Table::User)
    } else {
        &&& reply.status == Status::InternalServerError
        &&& !reply.success_spec()
        &&& after.same(before)
    }
}

/// Creates a user: what creating it does for some hash that matches the
/// request's password, or, where hashing fails, a failure that changes
/// nothing. Which hash is stored is not determined.
pub fn create_user(store: &mut Store, form: &user::CreateUserRequest) -> (reply: Reply<PublicUser>)
    requires
        old(store).wf(),
    ensures
        final(store).wf(),
        ({
            ||| exists|hash: String|
                at_rest(form.password@, hash@) && #[trigger] creates(
                    old(store),
                    final(store),
                    *form,
                    hash,
                    reply,
                )
            ||| reply.is_error(Status::InternalServerError, "Failed to hash password"@) && final(store).same(old(store))
        }),
{
    let ghost before = *store;
    match user::create_user(form, CreateStage::Begin) {
        CreateNext::Insert(row) => {
            let ghost hash = row.password;
            let outcome = store.insert_user(row);
            match user::create_user(form, CreateStage::Inserted(outcome)) {
                CreateNext::Reply(reply) => {
                    proof {
                        assert(user::draft(*form, hash) == row);
                        assert(creates(&before, store, *form, hash, reply));
                    }
                    reply
                },
                CreateNext::Insert(_) => unreached(),
            }
        },
        CreateNext::Reply(reply) => reply,
    }
}

/// Lists all users by their public parts, in the order of insertion.
pub fn get_users(store: &Store) -> (reply: Reply<Vec<PublicUser>>)
    ensures
        reply.has_data(None),
        reply.payload()@ == store.users.rows@.map_values(|u: Model| user::public(u)),
{
    match user::get_users(ListStage::Begin) {
        ListNext::Select(selection) => {
            let rows = store.users.select(selection.parent);
            proof {
                lemma_selected_all(store.users.rows@);
            }
            match user::get_users(ListStage::Listed(Ok(rows))) {
                ListNext::Reply(reply) => reply,
                ListNext::Select(_) => unreached(),
            }
        },
        ListNext::Reply(_) => unreached(),
    }
}

/// Returns the public part of the user that the key looks up, or answers that
/// there is none.
pub fn get_user_by_id(store: &Store, id: i32) -> (reply: Reply<PublicUser>)
    requires
        store.wf(),
    ensures
        match lookup(store.users.rows@, id as int) {
            Some(row) => reply.is_data(None, user::public(row)),
            None => reply.is_error(Status::NotFound, "User not found"@),
        },
{
    match user::get_user_by_id(id, FindStage::Begin) {
        FindNext::Find(key) => {
            let found = store.users.get(key);
            match user::get_user_by_id(id, FindStage::Found(Ok(found))) {
                FindNext::Reply(reply) => reply,
                FindNext::Find(_) => unreached(),
            }
        },
        FindNext::Reply(_) => unreached(),
    }
}

/// Whether `after` and `reply` are what writing the changed row `row` makes of
/// the store `before`: where the store takes it, the reply carries its public
/// part, it stands in the place of the stored row, and no other row has
/// changed; where the store refuses it, the reply is a failure and nothing has
/// changed.
pub open spec fn changes(before: &Store, after: &Store, row: Model, reply: Reply<PublicUser>) -> bool {
    if before.permits_user(row) {
        &&& reply.is_data(Some("User updated successfully"@), user::public(row))
        &&& lookup(after.users.rows@, row.key()) == Some(row)
        &&& after.users.rows@.len() == before.users.rows@.len()
        &&& forall|i: int|
            0 <= i < before.users.rows@.len() ==> #[trigger] after.users.rows@[i]
                == if before.users.rows@[i].key() == row.key() {
                row
            } else {
                before.users.rows@[i]
            }
        &&& after.users.next == before.users.next
        &&& after.same_but(before, Table::User)
    } else {
        &&& reply.status == Status::InternalServerError
        &&& !reply.success_spec()
        &&& after.same(before)
    }
}

/// Changes a user. Where there is no such row the reply says so and nothing
/// changes. Otherwise the request is applied to the stored row, a new password
/// as some hash that matches it, and the row is written; where hashing fails,
/// the reply is a failure and nothing changes. Which hash is stored is not
/// determined.
pub fn update_user(store: &mut Store, id: i32, form: &user::UpdateUserRequest) -> (reply: Reply<
    PublicUser,
>)
    requires
        old(store).wf(),
    ensures
        final(store).wf(),
        match lookup(old(store).users.rows@, id as int) {
            None => reply.is_error(Status::NotFound, "User not found"@) && final(store).same(
                old(store),
            ),
            Some(stored) => match form.password {
                None => changes(old(store), final(store), user::patched(stored, *form, None), reply),
                Some(p) => {
                    ||| exists|hash: String|
                        at_rest(p@, hash@) && #[trigger] changes(
                            old(store),
                            final(store),
                            user::patched(stored, *form, Some(hash)),
                            reply,
                        )
                    ||| reply.is_error(Status::InternalServerError, "Failed to hash password"@)
                        && final(store).same(old(store))
                },
            },
        },
{
    let ghost before = *store;
    match user::update_user(id, form, UpdateStage::Begin) {
        UpdateNext::Find(key) => {
            let found = store.users.get(key);
            match user::update_user(id, form, UpdateStage::Found(Ok(found))) {
                UpdateNext::Save(row) => {
                    let ghost hash = row.password;
                    let ghost written = row;
                    let outcome = store.update_user(row);
                    match user::update_user(id, form, UpdateStage::Saved(outcome)) {
                        UpdateNext::Reply(reply) => {
                            proof {
                                let stored = found->0;
                                if form.password is Some {
                                    assert(user::patched(stored, *form, Some(hash)) == written);
                                    assert(changes(
                                        &before,
                                        store,
                                        user::patched(stored, *form, Some(hash)),
                                        reply,
                                    ));
                                }
                            }
                            reply
                        },
                        _ => unreached(),
                    }
                },
                UpdateNext::Reply(reply) => reply,
                UpdateNext::Find(_) => unreached(),
            }
        },
        _ => unreached(),
    }
}

/// Deletes a user and the rows that follow it. The reply is a success only if
/// the row existed and the store removed it; where there is no such row the
/// reply says so, where the store refuses the delete the reply is a failure,
/// and either way nothing has changed.
pub fn delete_user(store: &mut Store, id: i32) -> (reply: Reply<()>)
    requires
        old(store).wf(),
    ensures
        final(store).wf(),
        if !old(store).has(Table::User, id as int) {
            reply.is_error(Status::NotFound, "User not found"@) && final(store).same(old(store))
        } else if old(store).blocked(Table::User, id as int) {
            &&& reply.status == Status::InternalServerError
            &&& !reply.success_spec()
            &&& final(store).same(old(store))
        } else {
            &&& reply.is_done(Some("User deleted successfully"@))
            &&& final(store).deleted(old(store), Table::User, id as int)
        },
{
    match user::delete_user(id, DeleteStage::Begin) {
        DeleteNext::Find(key) => {
            let found = store.users.get(key);
            match user::delete_user(id, DeleteStage::Found(Ok(found))) {
                DeleteNext::Delete(row) => {
                    let outcome = store.delete(Table::User, row.id);
                    match user::delete_user(id, DeleteStage::Deleted(outcome)) {
                        DeleteNext::Reply(reply) => reply,
                        _ => unreached(),
                    }
                },
                DeleteNext::Reply(reply) => reply,
                DeleteNext::Find(_) => unreached(),
            }
        },
        _ => unreached(),
    }
}

} // verus!
