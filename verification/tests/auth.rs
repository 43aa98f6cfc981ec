use farm_monitor::db::DbError;
use farm_monitor::handlers::auth::{login, me, Identity, LoginNext, LoginRequest, LoginStage, MeNext, MeStage};
use farm_monitor::handlers::user::{CreateUserRequest, PublicUser, UpdateUserRequest};
use farm_monitor::memory;
use farm_monitor::models::{user, user_role};
use farm_monitor::password::{check_password, hash_cost, hash_password};
use farm_monitor::response::{Body, Reply, Status};
use farm_monitor::session::Session;
use farm_monitor::store::Store;

fn data<T>(reply: Reply<T>) -> T {
    match reply.body {
        Body::Data { data, .. } => data,
        _ => panic!("the reply carries no payload"),
    }
}

fn error<T>(reply: &Reply<T>) -> String {
    match &reply.body {
        Body::Error { error } => error.clone(),
        _ => panic!("the reply is no failure"),
    }
}

fn store_with_roles() -> Store {
    let mut store = Store::new();
    store.insert_user_role(user_role::Model { id: 0, name: "admin".to_string() }).unwrap();
    store.insert_user_role(user_role::Model { id: 0, name: "farmer".to_string() }).unwrap();
    store
}

fn credentials(username: &str, password: &str) -> LoginRequest {
    LoginRequest { username: username.to_string(), password: password.to_string() }
}

const PYTHON_HASH: &str = "$2b$04$EGdrhbKUv8Oc9vGiXX0HQOxSg445d458Muh7DAHskb6QbtCvdxcie";

/// A user whose stored hash is one of low cost for "correctbatteryhorsestapler".
fn add_user(store: &mut Store, username: &str, role: i32) -> i32 {
    store
        .insert_user(user::Model {
            id: 0,
            username: username.to_string(),
            password: PYTHON_HASH.to_string(),
            user_role_id: role,
        })
        .unwrap()
        .id
}

#[test]
fn known_hashes_are_checked() {
    assert!(check_password("correctbatteryhorsestapler", PYTHON_HASH));
    assert!(!check_password("wrong", PYTHON_HASH));
    assert!(check_password("password", "$2a$04$UuTkLRZZ6QofpDOlMz32MuuxEHA43WOemOYHPz6.SjsVsyO1tDU96"));
    assert!(!check_password("password", "password"));
    assert!(!check_password("password", "$2a$04$tjARW6ZON3PhrAIRW2LG/u9a."));
    assert!(!check_password("", ""));
}

#[test]
fn a_hash_is_salted_and_matches_its_password() {
    let first = hash_password("hunter2", 4).unwrap();
    let second = hash_password("hunter2", 4).unwrap();
    assert_ne!(first, "hunter2");
    assert!(first.starts_with("$2b$04$"));
    assert_eq!(first.len(), 60);
    assert_ne!(first, second);
    assert!(check_password("hunter2", &first));
    assert!(check_password("hunter2", &second));
    assert!(!check_password("hunter3", &first));
}

#[test]
fn the_cost_is_read_off_a_hash() {
    assert_eq!(hash_cost(PYTHON_HASH), Some(4));
    assert_eq!(hash_cost("$2y$12$L6Bc/AlTQHyd9liGgGEZyOFLPHNgyxeEPfgYfBCVxJ7JIlwxyVU3u"), Some(12));
    assert_eq!(hash_cost("password"), None);
    assert_eq!(hash_cost(""), None);
    let made = hash_password("hunter2", 5).unwrap();
    assert_eq!(hash_cost(&made), Some(5));
}

#[test]
fn hashing_with_a_cost_out_of_range_fails() {
    assert_eq!(hash_password("hunter2", 3), None);
    assert_eq!(hash_password("hunter2", 32), None);
}

#[test]
fn login_then_me_shows_the_same_user() {
    let mut store = store_with_roles();
    add_user(&mut store, "zed", 1);
    let id = add_user(&mut store, "ann", 2);
    let mut session = Session::new();
    let welcome = memory::auth::login(&store, &mut session, &credentials("ann", "correctbatteryhorsestapler"));
    assert_eq!(welcome.status, Status::Success);
    match &welcome.body {
        Body::Data { message, .. } => assert_eq!(message.as_deref(), Some("Login successful")),
        _ => panic!("the reply carries no payload"),
    }
    assert_eq!(session, Session::Authenticated(id));
    assert_eq!(session.user_id(), Some(2));
    let shown = data(welcome);
    assert_eq!(shown, Identity { id: 2, username: "ann".to_string(), role: "farmer".to_string() });
    let answer = memory::auth::me(&store, &session);
    assert_eq!(answer.status, Status::Success);
    assert_eq!(data(answer), shown);
}

#[test]
fn wrong_password_issues_no_session() {
    let mut store = store_with_roles();
    add_user(&mut store, "ann", 2);
    let mut session = Session::new();
    let reply = memory::auth::login(&store, &mut session, &credentials("ann", "wrong"));
    assert_eq!(reply.status, Status::Unauthorized);
    assert_eq!(reply.status.code(), 401);
    assert_eq!(error(&reply), "Invalid username or password");
    assert_eq!(session, Session::Anonymous);
    let answer = memory::auth::me(&store, &session);
    assert_eq!(answer.status, Status::Unauthorized);
    assert_eq!(error(&answer), "Not authenticated");
}

#[test]
fn unknown_user_is_rejected_like_a_wrong_password() {
    let mut store = store_with_roles();
    add_user(&mut store, "ann", 2);
    let mut session = Session::Authenticated(1);
    let reply = memory::auth::login(&store, &mut session, &credentials("bob", "correctbatteryhorsestapler"));
    assert_eq!(reply.status, Status::Unauthorized);
    assert_eq!(error(&reply), "Invalid username or password");
    assert_eq!(session, Session::Authenticated(1));
}

#[test]
fn logout_then_me_is_not_authenticated() {
    let mut store = store_with_roles();
    add_user(&mut store, "ann", 2);
    let mut session = Session::new();
    memory::auth::login(&store, &mut session, &credentials("ann", "correctbatteryhorsestapler"));
    assert_eq!(session, Session::Authenticated(1));
    let reply = memory::auth::logout(&mut session);
    assert_eq!(reply.status, Status::Success);
    assert_eq!(reply.body, Body::Done { message: Some("Logged out".to_string()) });
    assert_eq!(session, Session::Anonymous);
    assert_eq!(memory::auth::me(&store, &session).status, Status::Unauthorized);
    let again = memory::auth::logout(&mut session);
    assert_eq!(again.status, Status::Success);
    assert_eq!(session, Session::Anonymous);
}

#[test]
fn session_of_a_deleted_user_is_not_authenticated() {
    let mut store = store_with_roles();
    add_user(&mut store, "ann", 2);
    let mut session = Session::new();
    memory::auth::login(&store, &mut session, &credentials("ann", "correctbatteryhorsestapler"));
    assert!(memory::user::delete_user(&mut store, 1).success());
    assert_eq!(memory::auth::me(&store, &session).status, Status::Unauthorized);
}

#[test]
fn created_user_can_log_in_and_shows_no_password() {
    let mut store = store_with_roles();
    let form = CreateUserRequest { username: "ann".to_string(), password: "s3cret".to_string(), user_role_id: 2 };
    let reply = memory::user::create_user(&mut store, &form);
    assert_eq!(reply.status, Status::Success);
    assert_eq!(data(reply), PublicUser { id: 1, username: "ann".to_string(), user_role_id: 2 });
    let stored = &store.users.rows[0];
    assert_ne!(stored.password, "s3cret");
    assert!(stored.password.starts_with("$2b$12$"));
    assert_eq!(hash_cost(&stored.password), Some(12));
    assert!(check_password("s3cret", &stored.password));
    assert_eq!(
        data(memory::user::get_user_by_id(&store, 1)),
        PublicUser { id: 1, username: "ann".to_string(), user_role_id: 2 }
    );
    let mut session = Session::new();
    let welcome = memory::auth::login(&store, &mut session, &credentials("ann", "s3cret"));
    assert_eq!(welcome.status, Status::Success);
    assert_eq!(session, Session::Authenticated(1));
}

#[test]
fn user_names_are_unique() {
    let mut store = store_with_roles();
    add_user(&mut store, "ann", 2);
    let taken = store.insert_user(user::Model {
        id: 0,
        username: "ann".to_string(),
        password: "x".to_string(),
        user_role_id: 1,
    });
    assert!(taken.is_err());
    assert_eq!(store.users.rows.len(), 1);
    add_user(&mut store, "bob", 2);
    let renamed = memory::user::update_user(
        &mut store,
        2,
        &UpdateUserRequest { username: Some("ann".to_string()), password: None, user_role_id: None },
    );
    assert_eq!(renamed.status, Status::InternalServerError);
    assert_eq!(store.users.rows[1].username, "bob");
    let same = memory::user::update_user(
        &mut store,
        2,
        &UpdateUserRequest { username: Some("bob".to_string()), password: None, user_role_id: Some(1) },
    );
    assert_eq!(data(same), PublicUser { id: 2, username: "bob".to_string(), user_role_id: 1 });
    let role = store.insert_user_role(user_role::Model { id: 0, name: "admin".to_string() });
    assert!(role.is_err());
}

#[test]
fn user_of_unknown_role_is_refused() {
    let mut store = store_with_roles();
    let taken = store.insert_user(user::Model {
        id: 0,
        username: "ann".to_string(),
        password: "x".to_string(),
        user_role_id: 3,
    });
    assert_eq!(taken, Err(DbError::new("insert violates a foreign key constraint")));
}

#[test]
fn update_keeps_the_password_unless_a_new_one_is_given() {
    let mut store = store_with_roles();
    add_user(&mut store, "ann", 2);
    let reply = memory::user::update_user(
        &mut store,
        1,
        &UpdateUserRequest { username: Some("anna".to_string()), password: None, user_role_id: None },
    );
    assert_eq!(data(reply), PublicUser { id: 1, username: "anna".to_string(), user_role_id: 2 });
    assert_eq!(store.users.rows[0].password, PYTHON_HASH);
    let reply = memory::user::update_user(
        &mut store,
        1,
        &UpdateUserRequest { username: None, password: Some("fresh".to_string()), user_role_id: None },
    );
    assert_eq!(reply.status, Status::Success);
    assert_eq!(store.users.rows[0].username, "anna");
    assert_ne!(store.users.rows[0].password, PYTHON_HASH);
    assert_ne!(store.users.rows[0].password, "fresh");
    assert!(check_password("fresh", &store.users.rows[0].password));
    assert_eq!(hash_cost(&store.users.rows[0].password), Some(12));
    let missing = memory::user::update_user(
        &mut store,
        5,
        &UpdateUserRequest { username: None, password: None, user_role_id: None },
    );
    assert_eq!(missing.status, Status::NotFound);
    assert_eq!(error(&missing), "User not found");
}

#[test]
fn users_are_listed_without_passwords() {
    let mut store = store_with_roles();
    add_user(&mut store, "ann", 2);
    add_user(&mut store, "bob", 1);
    assert_eq!(
        data(memory::user::get_users(&store)),
        vec![
            PublicUser { id: 1, username: "ann".to_string(), user_role_id: 2 },
            PublicUser { id: 2, username: "bob".to_string(), user_role_id: 1 },
        ]
    );
    assert_eq!(memory::user::get_user_by_id(&store, 3).status, Status::NotFound);
    assert_eq!(memory::user::delete_user(&mut store, 3).status, Status::NotFound);
}

#[test]
fn role_in_use_cannot_be_deleted() {
    let mut store = store_with_roles();
    add_user(&mut store, "ann", 2);
    assert!(store.delete(farm_monitor::schema::Table::UserRole, 2).is_err());
    assert_eq!(store.delete(farm_monitor::schema::Table::UserRole, 1), Ok(1));
    assert_eq!(store.delete(farm_monitor::schema::Table::UserRole, 1), Ok(0));
    assert_eq!(store.user_roles.rows.len(), 1);
}

#[test]
fn login_steps_ask_for_user_then_role() {
    let form = credentials("ann", "correctbatteryhorsestapler");
    let mut session = Session::new();
    assert_eq!(login(&form, &mut session, LoginStage::Begin), LoginNext::FindUser("ann".to_string()));
    let ann = user::Model { id: 4, username: "ann".to_string(), password: PYTHON_HASH.to_string(), user_role_id: 9 };
    let next = login(&form, &mut session, LoginStage::User(Ok(Some(ann.clone()))));
    assert_eq!(next, LoginNext::FindRole { user: ann.clone(), role_id: 9 });
    assert_eq!(session, Session::Anonymous);
    let next = login(&form, &mut session, LoginStage::Role { user: ann.clone(), role: Ok(None) });
    assert_eq!(session, Session::Authenticated(4));
    match next {
        LoginNext::Reply(reply) => {
            assert_eq!(data(reply), Identity { id: 4, username: "ann".to_string(), role: "user".to_string() })
        }
        _ => panic!("the login has not ended"),
    }
}

#[test]
fn login_steps_report_store_failures() {
    let form = credentials("ann", "x");
    let mut session = Session::new();
    let failure = DbError { display: "connection lost".to_string(), debug: "Conn(\"lost\")".to_string() };
    match login(&form, &mut session, LoginStage::User(Err(failure.clone()))) {
        LoginNext::Reply(reply) => {
            assert_eq!(reply.status, Status::InternalServerError);
            assert_eq!(reply.status.code(), 500);
            assert_eq!(error(&reply), "Database error: Conn(\"lost\")");
        }
        _ => panic!("the login has not ended"),
    }
    let ann = user::Model { id: 4, username: "ann".to_string(), password: PYTHON_HASH.to_string(), user_role_id: 9 };
    match login(&form, &mut session, LoginStage::Role { user: ann, role: Err(failure.clone()) }) {
        LoginNext::Reply(reply) => assert_eq!(reply.status, Status::InternalServerError),
        _ => panic!("the login has not ended"),
    }
    assert_eq!(session, Session::Anonymous);
    match me(&Session::Authenticated(3), MeStage::Found(Err(failure))) {
        MeNext::Reply(reply) => assert_eq!(reply.status, Status::InternalServerError),
        _ => panic!("the lookup has not ended"),
    }
    assert_eq!(me(&Session::Authenticated(3), MeStage::Begin), MeNext::FindUserWithRole(3));
}
