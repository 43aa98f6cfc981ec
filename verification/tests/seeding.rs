use farm_monitor::db::DbError;
use farm_monitor::handlers::Parent;
use farm_monitor::memory;
use farm_monitor::models::automation::AutomationType;
use farm_monitor::models::pest_control::PestControlStatus;
use farm_monitor::models::recommendation::RecommendationType;
use farm_monitor::models::sensor::SensorType;
use farm_monitor::models::{user_role, Record};
use farm_monitor::password::{check_password, hash_cost};
use farm_monitor::schema::Table;
use farm_monitor::seeder::{seed_db, seed_step, Lookup, SeedError, SeedEvent, SeedNext, SeedState};
use farm_monitor::store::Store;
use farm_monitor::values::Timestamp;

fn counts(store: &Store) -> [usize; 14] {
    [
        store.user_roles.rows.len(),
        store.users.rows.len(),
        store.seeds.rows.len(),
        store.lands.rows.len(),
        store.sensors.rows.len(),
        store.sensor_histories.rows.len(),
        store.plants.rows.len(),
        store.valves.rows.len(),
        store.pumps.rows.len(),
        store.automations.rows.len(),
        store.automation_histories.rows.len(),
        store.recommendations.rows.len(),
        store.pest_controls.rows.len(),
        store.notifications.rows.len(),
    ]
}

#[test]
fn seeding_an_empty_store() {
    let mut store = Store::new();
    assert_eq!(memory::seeder::seed_db(&mut store), Ok(()));
    assert_eq!(counts(&store), [3, 3, 1, 1, 1, 1, 1, 1, 1, 1, 1, 3, 1, 1]);
    let roles: Vec<&str> = store.user_roles.rows.iter().map(|r| r.name.as_str()).collect();
    assert_eq!(roles, vec!["admin", "farmer", "consultant"]);
    let users: Vec<(&str, i32)> = store.users.rows.iter().map(|u| (u.username.as_str(), u.user_role_id)).collect();
    assert_eq!(users, vec![("miracleandsleeper", 1), ("november rain", 2), ("imagine", 3)]);
    for user in &store.users.rows {
        assert!(user.password.starts_with("$2b$12$"));
        assert_eq!(hash_cost(&user.password), Some(12));
        assert_ne!(user.password, "1234");
    }
    assert!(check_password("1234", &store.users.rows[1].password));
    assert_eq!(store.users.rows[0].password, store.users.rows[2].password);
    assert_eq!(store.seeds.rows[0].name, "canon rock");
    let land = &store.lands.rows[0];
    assert_eq!((land.location_name.as_str(), land.size.to_bits(), land.user_id), ("be nice 2 me", 2.5f64.to_bits(), 2));
    let sensor = &store.sensors.rows[0];
    assert_eq!((sensor.name.as_str(), sensor.sensor_type, sensor.land_id), ("We Didn't Start The Fire", SensorType::Temperature, 1));
    let reading = &store.sensor_histories.rows[0];
    assert_eq!((reading.sensor_id, reading.value.to_bits()), (1, 28.5f64.to_bits()));
    assert!(reading.recorded_at.secs > 1_700_000_000);
    let plant = &store.plants.rows[0];
    assert_eq!((plant.name.as_str(), plant.quantity, plant.land_id, plant.seed_id), ("heaven and hell", 32, 1, 1));
    assert_eq!(store.valves.rows[0].name, "let it be");
    assert_eq!(store.pumps.rows[0].name, "One");
    let rule = &store.automations.rows[0];
    assert_eq!(rule.name, "fuwa fuwa time");
    assert_eq!(rule.automation_type, AutomationType::Watering);
    assert_eq!((rule.sensor_id, rule.pump_id, rule.valve_id, rule.land_id), (1, 1, 1, 1));
    assert_eq!(rule.sensor_value.to_bits(), 6.7f64.to_bits());
    assert_eq!(rule.dispense_amount.to_bits(), 5.0f64.to_bits());
    assert_eq!(store.automation_histories.rows[0].automation_id, 1);
    let advice: Vec<(&str, &str, RecommendationType, i32)> = store
        .recommendations
        .rows
        .iter()
        .map(|r| (r.name.as_str(), r.description.as_str(), r.rec_type, r.seed_id))
        .collect();
    assert_eq!(
        advice,
        vec![
            ("Always with me", "idk", RecommendationType::Watering, 1),
            ("One summer day", "idk", RecommendationType::Fertilization, 1),
            ("Is there still anything", "idk", RecommendationType::PestControl, 1),
        ]
    );
    let task = &store.pest_controls.rows[0];
    assert_eq!((task.name.as_str(), task.status, task.land_id), ("come sweet death", PestControlStatus::NoAction, 1));
    let note = &store.notifications.rows[0];
    assert_eq!((note.user_id, note.description.as_str()), (2, "coat i would buy"));
}

#[test]
fn seeding_twice_duplicates_nothing() {
    let mut store = Store::new();
    assert_eq!(memory::seeder::seed_db(&mut store), Ok(()));
    let users = store.users.rows.clone();
    let lands = store.lands.rows.clone();
    assert_eq!(memory::seeder::seed_db(&mut store), Ok(()));
    assert_eq!(counts(&store), [3, 3, 1, 1, 1, 1, 1, 1, 1, 1, 1, 3, 1, 1]);
    assert_eq!(store.users.rows, users);
    assert_eq!(store.lands.rows, lands);
    let advice: Vec<&str> = store.recommendations.rows.iter().map(|r| r.name.as_str()).collect();
    assert_eq!(advice, vec!["Always with me", "One summer day", "Is there still anything"]);
    assert_eq!(store.pest_controls.rows[0].name, "come sweet death");
    assert_eq!(store.notifications.rows[0].description, "coat i would buy");
}

#[test]
fn seeded_farmer_can_log_in() {
    let mut store = Store::new();
    assert_eq!(memory::seeder::seed_db(&mut store), Ok(()));
    let mut session = farm_monitor::session::Session::new();
    let form = farm_monitor::handlers::auth::LoginRequest {
        username: "november rain".to_string(),
        password: "1234".to_string(),
    };
    let reply = memory::auth::login(&store, &mut session, &form);
    assert_eq!(reply.status.code(), 200);
    assert_eq!(session, farm_monitor::session::Session::Authenticated(2));
    match reply.body {
        farm_monitor::response::Body::Data { data, .. } => {
            assert_eq!((data.id, data.username.as_str(), data.role.as_str()), (2, "november rain", "farmer"))
        }
        _ => panic!("the reply carries no payload"),
    }
}

#[test]
fn seeding_keeps_the_rows_that_were_there() {
    let mut store = Store::new();
    store.insert_user_role(user_role::Model { id: 0, name: "guest".to_string() }).unwrap();
    let role = store.user_roles.rows[0].clone();
    assert_eq!(memory::seeder::seed_db(&mut store), Ok(()));
    assert_eq!(store.user_roles.rows[0], role);
    assert_eq!(store.user_roles.rows.len(), 4);
}

#[test]
fn seeding_fills_in_what_is_missing() {
    let mut store = Store::new();
    store.insert_user_role(user_role::Model { id: 0, name: "guest".to_string() }).unwrap();
    store.insert_user_role(user_role::Model { id: 0, name: "farmer".to_string() }).unwrap();
    assert_eq!(memory::seeder::seed_db(&mut store), Ok(()));
    let roles: Vec<(i32, &str)> = store.user_roles.rows.iter().map(|r| (r.id, r.name.as_str())).collect();
    assert_eq!(roles, vec![(1, "guest"), (2, "farmer"), (3, "admin"), (4, "consultant")]);
    let users: Vec<(&str, i32)> = store.users.rows.iter().map(|u| (u.username.as_str(), u.user_role_id)).collect();
    assert_eq!(users, vec![("miracleandsleeper", 3), ("november rain", 2), ("imagine", 4)]);
}

fn state(item: u8) -> SeedState {
    let mut state = SeedState::new();
    state.item = item;
    state
}

#[test]
fn seeding_begins_with_the_lookup_of_the_first_role() {
    let (after, next) = seed_db(SeedState::new(), SeedEvent::Begin);
    assert_eq!(after, SeedState::new());
    assert_eq!(
        next,
        SeedNext::Find(Lookup { table: Table::UserRole, name: Some("admin".to_string()), parent: None })
    );
}

#[test]
fn a_lookup_that_finds_nothing_is_followed_by_the_insert() {
    let (after, next) = seed_db(SeedState::new(), SeedEvent::Found(Ok(None)));
    assert_eq!(after.item, 0);
    assert_eq!(next, SeedNext::Insert(Record::UserRole(user_role::Model { id: 0, name: "admin".to_string() })));
}

#[test]
fn a_row_that_is_found_is_not_inserted_again() {
    let (after, next) = seed_db(SeedState::new(), SeedEvent::Found(Ok(Some(7))));
    assert_eq!(after.item, 1);
    assert_eq!(after.keys.admin_role, 7);
    assert_eq!(
        next,
        SeedNext::Find(Lookup { table: Table::UserRole, name: Some("farmer".to_string()), parent: None })
    );
}

#[test]
fn later_items_are_looked_up_under_the_rows_found_before() {
    let mut at_land = state(6);
    at_land.keys.farmer = 12;
    let (after, next) = seed_db(at_land, SeedEvent::Inserted(Ok(3)));
    assert_eq!((after.item, after.keys.seed, after.keys.farmer), (7, 3, 12));
    assert_eq!(
        next,
        SeedNext::Find(Lookup {
            table: Table::Land,
            name: Some("be nice 2 me".to_string()),
            parent: Some(Parent { table: Table::User, key: 12 }),
        })
    );
    let mut at_history = state(8);
    at_history.keys.land = 5;
    let (after, next) = seed_db(at_history, SeedEvent::Found(Ok(Some(44))));
    assert_eq!((after.item, after.keys.sensor), (9, 44));
    assert_eq!(
        next,
        SeedNext::Find(Lookup {
            table: Table::SensorHistory,
            name: None,
            parent: Some(Parent { table: Table::Sensor, key: 44 }),
        })
    );
}

#[test]
fn the_password_is_hashed_when_the_roles_are_known() {
    let (after, next) = seed_db(state(2), SeedEvent::Found(Ok(Some(3))));
    assert_eq!(after.item, 3);
    assert_eq!(after.keys.consultant_role, 3);
    assert!(check_password("1234", &after.hash));
    assert_eq!(
        next,
        SeedNext::Find(Lookup { table: Table::User, name: Some("miracleandsleeper".to_string()), parent: None })
    );
    let (stuck, next) = seed_step(state(2), SeedEvent::Inserted(Ok(3)), None, Timestamp::new(0, 0));
    assert_eq!(stuck.item, 2);
    assert_eq!(next, SeedNext::Finish(Err(SeedError::Hash)));
}

#[test]
fn the_last_items_are_looked_up_too() {
    let mut at_end = state(14);
    at_end.keys.seed = 8;
    let (after, next) = seed_step(at_end, SeedEvent::Found(Ok(Some(1))), None, Timestamp::new(0, 0));
    assert_eq!(after.item, 15);
    assert_eq!(
        next,
        SeedNext::Find(Lookup {
            table: Table::Recommendation,
            name: Some("Always with me".to_string()),
            parent: Some(Parent { table: Table::Seed, key: 8 }),
        })
    );
    let (after, next) = seed_step(after, SeedEvent::Found(Ok(None)), None, Timestamp::new(0, 0));
    assert_eq!(after.item, 15);
    match next {
        SeedNext::Insert(Record::Recommendation(r)) => {
            assert_eq!((r.id, r.name.as_str(), r.rec_type, r.seed_id), (0, "Always with me", RecommendationType::Watering, 8))
        }
        _ => panic!("an insert was expected"),
    }
    let mut at_note = state(18);
    at_note.keys.farmer = 6;
    let (after, next) = seed_step(at_note, SeedEvent::Inserted(Ok(1)), None, Timestamp::new(0, 0));
    assert_eq!(after.item, 19);
    assert_eq!(
        next,
        SeedNext::Find(Lookup {
            table: Table::Notification,
            name: Some("coat i would buy".to_string()),
            parent: Some(Parent { table: Table::User, key: 6 }),
        })
    );
    let (after, next) = seed_step(state(19), SeedEvent::Inserted(Ok(1)), None, Timestamp::new(0, 0));
    assert_eq!(after.item, 20);
    assert_eq!(next, SeedNext::Finish(Ok(())));
    let (_, next) = seed_step(state(20), SeedEvent::Begin, None, Timestamp::new(0, 0));
    assert_eq!(next, SeedNext::Finish(Ok(())));
}

#[test]
fn a_store_failure_ends_seeding() {
    let failure = DbError::new("connection lost");
    let (after, next) = seed_db(state(4), SeedEvent::Found(Err(failure.clone())));
    assert_eq!(after.item, 4);
    assert_eq!(next, SeedNext::Finish(Err(SeedError::Database(failure.clone()))));
    let (_, next) = seed_db(state(16), SeedEvent::Inserted(Err(failure.clone())));
    assert_eq!(next, SeedNext::Finish(Err(SeedError::Database(failure))));
}

#[test]
fn rows_with_a_timestamp_take_the_instant_of_the_step() {
    let mut at_plant = state(10);
    at_plant.keys.land = 2;
    at_plant.keys.seed = 3;
    let (_, next) = seed_step(at_plant, SeedEvent::Found(Ok(None)), None, Timestamp::new(99, 7));
    match next {
        SeedNext::Insert(Record::Plant(p)) => {
            assert_eq!(p.planted_at, Timestamp::new(99, 7));
            assert_eq!((p.quantity, p.land_id, p.seed_id), (32, 2, 3));
        }
        _ => panic!("an insert was expected"),
    }
}
