use farm_monitor::db::{drop_sql, setup_tables, DbError, SetupNext, Statement};
use farm_monitor::handlers::land::{create_land, delete_land, get_land_by_id, get_user_lands, update_land, CreateLandRequest, UpdateLandRequest};
use farm_monitor::handlers::pump::{create_pump, delete_pump, update_pump, CreatePumpRequest, UpdatePumpRequest};
use farm_monitor::handlers::recommendation::{delete_recommendation, get_recommendation_by_id, get_recommendations};
use farm_monitor::handlers::sensor::{create_sensor, parse_sensor_type, CreateSensorRequest};
use farm_monitor::handlers::sensor_history::get_history_by_sensor;
use farm_monitor::handlers::user::{create_user_hashed, update_user_hashed, CreateUserRequest, UpdateUserRequest};
use farm_monitor::handlers::{CreateNext, CreateStage, DeleteNext, DeleteStage, EraseNext, EraseStage, FindNext, FindStage, ListNext, ListStage, Parent, Selection, UpdateNext, UpdateStage};
use farm_monitor::models::automation::AutomationType;
use farm_monitor::models::pest_control::PestControlStatus;
use farm_monitor::models::recommendation::RecommendationType;
use farm_monitor::models::sensor::SensorType;
use farm_monitor::models::{automation, land, pump, sensor, user};
use farm_monitor::response::{Body, Reply, Status};
use farm_monitor::schema::{ForeignKeyAction, RelationKind, Table};
use farm_monitor::values::{same_text, Real, Timestamp};

fn failure() -> DbError {
    DbError { display: "connection lost".to_string(), debug: "Conn(\"lost\")".to_string() }
}

fn field() -> land::Model {
    land::Model { id: 3, location_name: "north".to_string(), size: Real::from_bits(7), user_id: 2 }
}

#[test]
fn create_steps() {
    let form = CreateLandRequest { location_name: "north".to_string(), size: Real::from_bits(7), user_id: 2 };
    assert_eq!(
        create_land(&form, CreateStage::Begin),
        CreateNext::Insert(land::Model { id: 0, location_name: "north".to_string(), size: Real::from_bits(7), user_id: 2 })
    );
    assert_eq!(
        create_land(&form, CreateStage::Inserted(Ok(field()))),
        CreateNext::Reply(Reply {
            status: Status::Success,
            body: Body::Data { message: Some("Land created successfully".to_string()), data: field() },
        })
    );
    assert_eq!(
        create_land(&form, CreateStage::Inserted(Err(failure()))),
        CreateNext::Reply(Reply {
            status: Status::InternalServerError,
            body: Body::Error { error: "Database error: Conn(\"lost\")".to_string() },
        })
    );
}

#[test]
fn failures_are_rendered_as_each_handler_does() {
    let form = CreatePumpRequest { name: "p".to_string(), land_id: 1 };
    assert_eq!(
        create_pump(&form, CreateStage::Inserted(Err(failure()))),
        CreateNext::Reply(Reply {
            status: Status::InternalServerError,
            body: Body::Error { error: "connection lost".to_string() },
        })
    );
    assert_eq!(
        get_recommendation_by_id(1, FindStage::Found(Err(failure()))),
        FindNext::Reply(Reply {
            status: Status::InternalServerError,
            body: Body::Error { error: "Conn(\"lost\")".to_string() },
        })
    );
    assert_eq!(
        get_recommendations(ListStage::Listed(Err(failure()))),
        ListNext::Reply(Reply {
            status: Status::InternalServerError,
            body: Body::Error { error: "Conn(\"lost\")".to_string() },
        })
    );
    assert_eq!(failure().report(), "Database error: Conn(\"lost\")");
    assert_eq!(failure().to_string(), "connection lost");
    assert_eq!(failure().to_debug(), "Conn(\"lost\")");
    assert_eq!(DbError::new("x"), DbError { display: "x".to_string(), debug: "x".to_string() });
}

#[test]
fn find_and_list_steps() {
    assert_eq!(get_land_by_id(5, FindStage::Begin), FindNext::Find(5));
    assert_eq!(
        get_land_by_id(5, FindStage::Found(Ok(None))),
        FindNext::Reply(Reply { status: Status::NotFound, body: Body::Error { error: "Land not found".to_string() } })
    );
    assert_eq!(
        get_land_by_id(3, FindStage::Found(Ok(Some(field())))),
        FindNext::Reply(Reply { status: Status::Success, body: Body::Data { message: None, data: field() } })
    );
    assert_eq!(
        get_user_lands(2, ListStage::Begin),
        ListNext::Select(Selection { parent: Some(Parent { table: Table::User, key: 2 }) })
    );
    assert_eq!(
        get_history_by_sensor(4, ListStage::Begin),
        ListNext::Select(Selection { parent: Some(Parent { table: Table::Sensor, key: 4 }) })
    );
    assert_eq!(
        get_user_lands(2, ListStage::Listed(Ok(vec![]))),
        ListNext::Reply(Reply { status: Status::Success, body: Body::Data { message: None, data: vec![] } })
    );
}

#[test]
fn update_steps() {
    let form = UpdateLandRequest { location_name: None, size: Some(Real::from_bits(9)), user_id: None };
    assert_eq!(update_land(3, &form, UpdateStage::Begin), UpdateNext::Find(3));
    assert_eq!(
        update_land(3, &form, UpdateStage::Found(Ok(Some(field())))),
        UpdateNext::Save(land::Model { id: 3, location_name: "north".to_string(), size: Real::from_bits(9), user_id: 2 })
    );
    match update_land(3, &form, UpdateStage::Found(Ok(None))) {
        UpdateNext::Reply(r) => assert_eq!(r.status, Status::NotFound),
        _ => panic!("a reply was expected"),
    }
    match update_land(3, &form, UpdateStage::Saved(Ok(field()))) {
        UpdateNext::Reply(r) => {
            assert_eq!(r.body, Body::Data { message: Some("Land updated successfully".to_string()), data: field() })
        }
        _ => panic!("a reply was expected"),
    }
    let stored = pump::Model { id: 1, name: "old".to_string(), land_id: 6 };
    assert_eq!(
        update_pump(1, &UpdatePumpRequest { name: Some("new".to_string()) }, UpdateStage::Found(Ok(Some(stored)))),
        UpdateNext::Save(pump::Model { id: 1, name: "new".to_string(), land_id: 6 })
    );
    assert_eq!(
        update_pump(1, &UpdatePumpRequest { name: Some("new".to_string()) }, UpdateStage::Found(Ok(None))),
        UpdateNext::Reply(Reply { status: Status::NotFound, body: Body::Error { error: "Pump not found".to_string() } })
    );
}

#[test]
fn delete_steps() {
    assert_eq!(delete_land(3, DeleteStage::Begin), DeleteNext::Find(3));
    assert_eq!(delete_land(3, DeleteStage::Found(Ok(Some(field())))), DeleteNext::Delete(field()));
    assert_eq!(
        delete_land(3, DeleteStage::Deleted(Ok(0))),
        DeleteNext::Reply(Reply {
            status: Status::NotFound,
            body: Body::Error { error: "Land not found or already deleted".to_string() },
        })
    );
    assert_eq!(
        delete_land(3, DeleteStage::Deleted(Ok(1))),
        DeleteNext::Reply(Reply {
            status: Status::Success,
            body: Body::Done { message: Some("Land deleted successfully".to_string()) },
        })
    );
    assert_eq!(delete_pump(3, EraseStage::Begin), EraseNext::Delete(3));
    assert_eq!(
        delete_pump(3, EraseStage::Deleted(Ok(1))),
        EraseNext::Reply(Reply { status: Status::Success, body: Body::Done { message: None } })
    );
    assert_eq!(
        delete_recommendation(3, EraseStage::Deleted(Ok(2))),
        EraseNext::Reply(Reply { status: Status::Success, body: Body::Done { message: Some("Deleted".to_string()) } })
    );
    assert_eq!(
        delete_recommendation(3, EraseStage::Deleted(Ok(0))),
        EraseNext::Reply(Reply { status: Status::NotFound, body: Body::Error { error: "Not found".to_string() } })
    );
}

#[test]
fn sensor_types_are_parsed() {
    assert_eq!(parse_sensor_type("Temperature"), Ok(SensorType::Temperature));
    assert_eq!(parse_sensor_type("PH"), Ok(SensorType::PH));
    assert_eq!(parse_sensor_type("Wetness"), Err("Invalid sensor type: Wetness".to_string()));
    assert_eq!(parse_sensor_type(""), Err("Invalid sensor type: ".to_string()));
    assert_eq!(parse_sensor_type("ph"), Err("Invalid sensor type: ph".to_string()));
    let form = CreateSensorRequest { name: "s".to_string(), sensor_type: "SoilMoisture".to_string(), land_id: 2 };
    assert_eq!(
        create_sensor(&form, CreateStage::Begin),
        CreateNext::Insert(sensor::Model { id: 0, name: "s".to_string(), sensor_type: SensorType::SoilMoisture, land_id: 2 })
    );
}

#[test]
fn user_steps_with_a_given_hash() {
    let form = CreateUserRequest { username: "ann".to_string(), password: "pw".to_string(), user_role_id: 2 };
    assert_eq!(
        create_user_hashed(&form, Some("HASH".to_string())),
        CreateNext::Insert(user::Model { id: 0, username: "ann".to_string(), password: "HASH".to_string(), user_role_id: 2 })
    );
    assert_eq!(
        create_user_hashed(&form, None),
        CreateNext::Reply(Reply {
            status: Status::InternalServerError,
            body: Body::Error { error: "Failed to hash password".to_string() },
        })
    );
    let stored = || user::Model { id: 4, username: "ann".to_string(), password: "OLD".to_string(), user_role_id: 2 };
    let rename = UpdateUserRequest { username: Some("anna".to_string()), password: None, user_role_id: None };
    assert_eq!(
        update_user_hashed(stored(), &rename, None),
        UpdateNext::Save(user::Model { id: 4, username: "anna".to_string(), password: "OLD".to_string(), user_role_id: 2 })
    );
    let rekey = UpdateUserRequest { username: None, password: Some("pw".to_string()), user_role_id: Some(1) };
    assert_eq!(
        update_user_hashed(stored(), &rekey, Some("NEW".to_string())),
        UpdateNext::Save(user::Model { id: 4, username: "ann".to_string(), password: "NEW".to_string(), user_role_id: 1 })
    );
    match update_user_hashed(stored(), &rekey, None) {
        UpdateNext::Reply(r) => assert_eq!(r.status, Status::InternalServerError),
        _ => panic!("a reply was expected"),
    }
}

#[test]
fn schema_is_dropped_then_created_in_order() {
    let mut statements = Vec::new();
    let mut done = 0;
    loop {
        match setup_tables(done, Ok(())) {
            SetupNext::Execute(s) => statements.push(s),
            SetupNext::Finish(r) => {
                assert_eq!(r, Ok(()));
                break;
            }
        }
        done += 1;
    }
    assert_eq!(statements.len(), 28);
    assert_eq!(
        statements[0],
        Statement::Drop { table: Table::Notification, sql: "DROP TABLE IF EXISTS \"notification\" CASCADE;".to_string() }
    );
    assert_eq!(
        statements[13],
        Statement::Drop { table: Table::UserRole, sql: "DROP TABLE IF EXISTS \"user_role\" CASCADE;".to_string() }
    );
    let created: Vec<Table> = statements[14..]
        .iter()
        .map(|s| match s {
            Statement::Create { table } => *table,
            _ => panic!("a create was expected"),
        })
        .collect();
    assert_eq!(
        created,
        vec![
            Table::UserRole,
            Table::User,
            Table::Seed,
            Table::Land,
            Table::Sensor,
            Table::SensorHistory,
            Table::Plant,
            Table::Valve,
            Table::Pump,
            Table::Automation,
            Table::AutomationHistory,
            Table::Recommendation,
            Table::PestControl,
            Table::Notification,
        ]
    );
    assert_eq!(drop_sql(Table::PestControl), "DROP TABLE IF EXISTS \"pest_control\" CASCADE;");
    assert_eq!(Table::AutomationHistory.name(), "automation_history");
}

#[test]
fn the_first_failure_ends_the_setup() {
    assert_eq!(setup_tables(5, Err(failure())), SetupNext::Finish(Err(failure())));
    assert_eq!(setup_tables(0, Err(failure())), SetupNext::Finish(Err(failure())));
    assert_eq!(setup_tables(28, Ok(())), SetupNext::Finish(Ok(())));
    assert_eq!(setup_tables(usize::MAX, Ok(())), SetupNext::Finish(Ok(())));
}

#[test]
fn enumerations_are_stored_as_text() {
    assert_eq!(SensorType::LightIntensity.to_value(), "LightIntensity");
    assert_eq!(SensorType::try_from_value("Humidity"), Some(SensorType::Humidity));
    assert_eq!(SensorType::try_from_value("humidity"), None);
    assert_eq!(PestControlStatus::NoAction.to_value(), "no_action");
    assert_eq!(PestControlStatus::Wip.to_value(), "wip");
    assert_eq!(PestControlStatus::Done.to_value(), "done");
    assert_eq!(PestControlStatus::try_from_value("wip"), Some(PestControlStatus::Wip));
    assert_eq!(PestControlStatus::try_from_value("Wip"), None);
    assert_eq!(AutomationType::PestControl.to_value(), "PestControl");
    assert_eq!(AutomationType::try_from_value("Watering"), Some(AutomationType::Watering));
    assert_eq!(AutomationType::try_from_value(""), None);
    for kind in [RecommendationType::Watering, RecommendationType::Fertilization, RecommendationType::PestControl] {
        assert_eq!(RecommendationType::try_from_value(&kind.to_value()), Some(kind));
    }
}

#[test]
fn relations_give_the_foreign_keys() {
    let owner = land::Relation::User.def();
    assert_eq!((owner.kind, owner.from_tbl, owner.to_tbl), (RelationKind::BelongsTo, Table::Land, Table::User));
    assert_eq!(owner.on_delete, Some(ForeignKeyAction::Cascade));
    assert_eq!(owner.on_update, Some(ForeignKeyAction::Cascade));
    let sensors = land::Relation::Sensor.def();
    assert_eq!((sensors.kind, sensors.from_tbl, sensors.to_tbl), (RelationKind::HasMany, Table::Land, Table::Sensor));
    let probe = automation::Relation::Sensor.def();
    assert_eq!((probe.kind, probe.to_tbl, probe.on_delete), (RelationKind::BelongsTo, Table::Sensor, None));
    let role = user::Relation::UserRole.def();
    assert_eq!((role.to_tbl, role.on_delete), (Table::UserRole, None));
}

#[test]
fn values_compare_as_expected() {
    assert!(same_text("abc", "abc"));
    assert!(!same_text("abc", "abd"));
    assert!(!same_text("abc", "ab"));
    assert!(Timestamp::new(1, 5).is_before(&Timestamp::new(2, 0)));
    assert!(Timestamp::new(1, 5).is_before(&Timestamp::new(1, 6)));
    assert!(!Timestamp::new(1, 5).is_before(&Timestamp::new(1, 5)));
    assert!(!Timestamp::new(-1, 5).is_before(&Timestamp::new(-2, 9)));
    assert_eq!(Real::from_bits(1.2f64.to_bits()).to_bits(), 0x3ff3333333333333);
    assert_eq!(Status::Success.code(), 200);
    assert_eq!(Status::BadRequest.code(), 400);
    assert_eq!(Status::Unauthorized.code(), 401);
    assert_eq!(Status::NotFound.code(), 404);
    assert_eq!(Status::InternalServerError.code(), 500);
}
