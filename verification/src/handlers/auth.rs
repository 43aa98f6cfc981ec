//! The session gate: login, the lookup of the current user, and logout.

use vstd::prelude::*;
use crate::db::DbError;
use crate::models::{user, user_role};
use crate::password::{check_password, verifies};
use crate::response::{Reply, Status};
use crate::session::Session;

verus! {

/// What a login request carries.
#[derive(Debug, PartialEq, Eq)]
pub struct LoginRequest {
    pub username: String,
    pub password: String,
}

/// What a reply shows of the user behind a session.
#[derive(Debug, PartialEq, Eq)]
pub struct Identity {
    pub id: i32,
    pub username: String,
    /// The name of the user's role.
    pub role: String,
}

/// How far a login has come.
#[derive(Debug, PartialEq, Eq)]
pub enum LoginStage {
    Begin,
    /// The store has answered the lookup of the user by name.
    User(Result<Option<user::Model>, DbError>),
    /// The store has answered the lookup of the role of `user`, whose password
    /// has been checked.
    Role { user: user::Model, role: Result<Option<user_role::Model>, DbError> },
}

/// What a login does next.
#[derive(Debug, PartialEq, Eq)]
pub enum LoginNext {
    /// Look up the user with this name.
    FindUser(String),
    /// Look up the role with the key `role_id`, and come back with `user`.
    FindRole { user: user::Model, role_id: i32 },
    Reply(Reply<Identity>),
}

/// How far the lookup of the current user has come.
#[derive(Debug, PartialEq, Eq)]
pub enum MeStage {
    Begin,
    /// The store has answered the lookup of the user together with the user's
    /// role.
    Found(Result<Option<(user::Model, Option<user_role::Model>)>, DbError>),
}

/// What the lookup of the current user does next.
#[derive(Debug, PartialEq, Eq)]
pub enum MeNext {
    /// Look up the user with this key, together with the user's role.
    FindUserWithRole(i32),
    Reply(Reply<Identity>),
}

/// Whether `identity` shows `user` under the name of `role`, or under the
/// role name "user" where the role is missing.
pub open spec fn shows(identity: Identity, user: user::Model, role: Option<user_role::Model>) -> bool {
    &&& identity.id == user.id
    &&& identity.username == user.username
    &&& identity.role@ == match role {
        Some(r) => r.name@,
        None => "user"@,
    }
}

fn identify(user: user::Model, role: Option<user_role::Model>) -> (identity: Identity)
    ensures
        shows(identity, user, role),
{
    let name = match role {
        Some(r) => r.name,
        None => "user".to_owned(),
    };
    Identity { id: user.id, username: user.username, role: name }
}

/// Whether a reply is the rejection of a login.
pub open spec fn rejected(r: Reply<Identity>) -> bool {
    r.is_error(Status::Unauthorized, "Invalid username or password"@)
}

/// Logs a user in. The user is looked up by name and the password checked
/// against the stored hash; an unknown name and a wrong password are rejected
/// alike. Then the role is looked up, the session is bound to the user, and
/// the reply shows the user. The session changes at that last step only.
pub fn login(form: &LoginRequest, session: &mut Session, stage: LoginStage) -> (next: LoginNext)
    ensures
        match stage {
            LoginStage::Begin => next matches LoginNext::FindUser(name) && name == form.username
                && *final(session) == *old(session),
            LoginStage::User(Ok(Some(user))) => *final(session) == *old(session) && if verifies(
                form.password@,
                user.password@,
            ) {
                next == (LoginNext::FindRole { user, role_id: user.user_role_id })
            } else {
                next matches LoginNext::Reply(r) && rejected(r)
            },
            LoginStage::User(Ok(None)) => next matches LoginNext::Reply(r) && rejected(r)
                && *final(session) == *old(session),
            LoginStage::User(Err(e)) => next matches LoginNext::Reply(r) && r.is_error(
                Status::InternalServerError,
                e.report_spec(),
            ) && *final(session) == *old(session),
            LoginStage::Role { user, role: Ok(role) } => next matches LoginNext::Reply(r)
                && r.has_data(Some("Login successful"@)) && shows(r.payload(), user, role)
                && *final(session) == Session::Authenticated(user.id),
            LoginStage::Role { user, role: Err(e) } => next matches LoginNext::Reply(r)
                && r.is_error(Status::InternalServerError, e.report_spec()) && *final(session)
                == *old(session),
        },
{
    match stage {
        LoginStage::Begin => LoginNext::FindUser(form.username.clone()),
        LoginStage::User(Ok(Some(user))) => {
            if check_password(form.password.as_str(), user.password.as_str()) {
                let role_id = user.user_role_id;
                LoginNext::FindRole { user, role_id }
            } else {
                LoginNext::Reply(Reply::unauthorized("Invalid username or password"))
            }
        },
        LoginStage::User(Ok(None)) => LoginNext::Reply(
            Reply::unauthorized("Invalid username or password"),
        ),
        LoginStage::User(Err(e)) => LoginNext::Reply(Reply::server_error(e.report())),
        LoginStage::Role { user, role: Ok(role) } => {
            session.insert(user.id);
            LoginNext::Reply(Reply::data_with("Login successful", identify(user, role)))
        },
        LoginStage::Role { user, role: Err(e) } => LoginNext::Reply(
            Reply::server_error(e.report()),
        ),
    }
}

/// Looks up the user behind the session. Without a session, and where the
/// session's user no longer exists, the answer is that nobody is authenticated.
pub fn me(session: &Session, stage: MeStage) -> (next: MeNext)
    ensures
        match stage {
            MeStage::Begin => match session.user() {
                Some(id) => next == MeNext::FindUserWithRole(id),
                None => next matches MeNext::Reply(r) && r.is_error(
                    Status::Unauthorized,
                    "Not authenticated"@,
                ),
            },
            MeStage::Found(Ok(Some((user, role)))) => next matches MeNext::Reply(r)
                && r.has_data(None) && shows(r.payload(), user, role),
            MeStage::Found(Ok(None)) => next matches MeNext::Reply(r) && r.is_error(
                Status::Unauthorized,
                "Not authenticated"@,
            ),
            MeStage::Found(Err(e)) => next matches MeNext::Reply(r) && r.is_error(
                Status::InternalServerError,
                e.report_spec(),
            ),
        },
{
    match stage {
        MeStage::Begin => match session.user_id() {
            Some(id) => MeNext::FindUserWithRole(id),
            None => MeNext::Reply(Reply::unauthorized("Not authenticated")),
        },
        MeStage::Found(Ok(Some((user, role)))) => MeNext::Reply(Reply::data(identify(user, role))),
        MeStage::Found(Ok(None)) => MeNext::Reply(Reply::unauthorized("Not authenticated")),
        MeStage::Found(Err(e)) => MeNext::Reply(Reply::server_error(e.report())),
    }
}

/// Logs out: discards the session, whatever it held.
pub fn logout(session: &mut Session) -> (reply: Reply<()>)
    ensures
        *final(session) == Session::Anonymous,
        reply.is_done(Some("Logged out"@)),
{
    session.purge();
    Reply::done_with("Logged out")
}

} // verus!
