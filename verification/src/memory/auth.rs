//! The session gate, run against the in-memory store.

use vstd::prelude::*;
use vstd::pervasive::unreached;
use crate::handlers::auth;
use crate::handlers::auth::{Identity, LoginNext, LoginRequest, LoginStage, MeNext, MeStage};
use crate::models::{user, user_role};
use crate::password::verifies;
use crate::response::{Reply, Status};
use crate::schema::Row;
use crate::session::Session;
use crate::store::rows::{first_fit, lemma_first_fit, lemma_lookup_at, lookup};
use crate::store::Store;

verus! {

impl Store {
    /// The user that goes by the name, if there is one.
    pub open spec fn user_named(&self, name: Seq<char>) -> Option<user::Model> {
        match first_fit(self.users.rows@, Some(name), None) {
            Some(key) => lookup(self.users.rows@, key),
            None => None,
        }
    }

    /// The role of a user, if it exists.
    pub open spec fn role_of(&self, user: user::Model) -> Option<user_role::Model> {
        lookup(self.user_roles.rows@, user.user_role_id as int)
    }
}

/// The user that a login request authenticates: the user that goes by the
/// request's name, where the request's password matches that user's stored
/// hash.
pub open spec fn authenticates(store: &Store, form: LoginRequest) -> Option<user::Model> {
    match store.user_named(form.username@) {
        Some(user) => if verifies(form.password@, user.password@) {
            Some(user)
        } else {
            None
        },
        None => None,
    }
}

/// What a login does: with correct credentials the session is bound to the
/// user and the reply shows the user with the role's name; otherwise the
/// login is rejected and the session stays as it was.
pub open spec fn logs_in(
    store: &Store,
    form: LoginRequest,
    before: Session,
    after: Session,
    reply: Reply<Identity>,
) -> bool {
    match authenticates(store, form) {
        Some(user) => {
            &&& after == Session::Authenticated(user.id)
            &&& reply.has_data(Some("Login successful"@))
            &&& auth::shows(reply.payload(), user, store.role_of(user))
        },
        None => auth::rejected(reply) && after == before,
    }
}

/// What the lookup of the current user answers: the user behind the session
/// with the role's name, or that nobody is authenticated where the session is
/// anonymous or its user no longer exists.
pub open spec fn identifies(store: &Store, session: Session, reply: Reply<Identity>) -> bool {
    match session.user() {
        Some(id) => match lookup(store.users.rows@, id as int) {
            Some(user) => reply.has_data(None) && auth::shows(
                reply.payload(),
                user,
                store.role_of(user),
            ),
            None => reply.is_error(Status::Unauthorized, "Not authenticated"@),
        },
        None => reply.is_error(Status::Unauthorized, "Not authenticated"@),
    }
}

/// Logs a user in.
pub fn login(store: &Store, session: &mut Session, form: &LoginRequest) -> (reply: Reply<Identity>)
    requires
        store.wf(),
    ensures
        logs_in(store, *form, *old(session), *final(session), reply),
{
    match auth::login(form, session, LoginStage::Begin) {
        LoginNext::FindUser(name) => {
            let key = Some(name);
            let found = match store.users.first(&key, None) {
                Some(k) => store.users.get(k),
                None => None,
            };
            match auth::login(form, session, LoginStage::User(Ok(found))) {
                LoginNext::FindRole { user, role_id } => {
                    let role = store.user_roles.get(role_id);
                    match auth::login(form, session, LoginStage::Role { user, role: Ok(role) }) {
                        LoginNext::Reply(reply) => reply,
                        _ => unreached(),
                    }
                },
                LoginNext::Reply(reply) => reply,
                LoginNext::FindUser(_) => unreached(),
            }
        },
        _ => unreached(),
    }
}

/// Looks up the user behind the session.
pub fn me(store: &Store, session: &Session) -> (reply: Reply<Identity>)
    requires
        store.wf(),
    ensures
        identifies(store, *session, reply),
{
    match auth::me(session, MeStage::Begin) {
        MeNext::FindUserWithRole(id) => {
            let found = match store.users.get(id) {
                Some(user) => {
                    let role = store.user_roles.get(user.user_role_id);
                    Some((user, role))
                },
                None => None,
            };
            match auth::me(session, MeStage::Found(Ok(found))) {
                MeNext::Reply(reply) => reply,
                MeNext::FindUserWithRole(_) => unreached(),
            }
        },
        MeNext::Reply(reply) => reply,
    }
}

/// Logs out: the session is anonymous afterwards, whatever it was.
pub fn logout(session: &mut Session) -> (reply: Reply<()>)
    ensures
        *final(session) == Session::Anonymous,
        reply.is_done(Some("Logged out"@)),
{
    auth::logout(session)
}

/// The user that a login authenticates is the user that its key looks up.
pub proof fn lemma_authenticated_is_stored(store: &Store, form: LoginRequest)
    requires
        store.wf(),
        authenticates(store, form) is Some,
    ensures
        lookup(store.users.rows@, authenticates(store, form)->0.id as int) == authenticates(
            store,
            form,
        ),
{
    let s = store.users.rows@;
    lemma_first_fit(s, Some(form.username@), None);
    let key = first_fit(s, Some(form.username@), None)->0;
    let i = choose|i: int| 0 <= i < s.len() && #[trigger] s[i].key() == key;
    lemma_lookup_at(s, i);
}

/// After a login with correct credentials, the lookup of the current user
/// shows the same user under the same role name as the login did.
pub proof fn law_login_then_me(
    store: &Store,
    form: LoginRequest,
    before: Session,
    after: Session,
    welcome: Reply<Identity>,
    answer: Reply<Identity>,
)
    requires
        store.wf(),
        authenticates(store, form) is Some,
        logs_in(store, form, before, after, welcome),
        identifies(store, after, answer),
    ensures
        welcome.has_data(Some("Login successful"@)),
        answer.has_data(None),
        answer.payload().id == welcome.payload().id,
        after == Session::Authenticated(answer.payload().id),
        answer.payload().username == welcome.payload().username,
        answer.payload().role@ == welcome.payload().role@,
{
    lemma_authenticated_is_stored(store, form);
}

/// A login with a name that no user goes by, or with a password that does not
/// match, is rejected and leaves the session as it was.
pub proof fn law_wrong_credentials(
    store: &Store,
    form: LoginRequest,
    before: Session,
    after: Session,
    welcome: Reply<Identity>,
)
    requires
        logs_in(store, form, before, after, welcome),
        match store.user_named(form.username@) {
            Some(user) => !verifies(form.password@, user.password@),
            None => true,
        },
    ensures
        welcome.is_error(Status::Unauthorized, "Invalid username or password"@),
        after == before,
{
}

/// After a logout nobody is authenticated.
pub proof fn law_logout_then_me(store: &Store, answer: Reply<Identity>)
    requires
        identifies(store, Session::Anonymous, answer),
    ensures
        answer.is_error(Status::Unauthorized, "Not authenticated"@),
{
}

} // verus!
