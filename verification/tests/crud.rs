use farm_monitor::handlers::automation::{CreateAutoRequest, UpdateAutoRequest};
use farm_monitor::handlers::land::{CreateLandRequest, UpdateLandRequest};
use farm_monitor::handlers::pest_control::{CreatePestRequest, UpdatePestRequest};
use farm_monitor::handlers::plant::{CreatePlantRequest, UpdatePlantRequest};
use farm_monitor::handlers::pump::{CreatePumpRequest, UpdatePumpRequest};
use farm_monitor::handlers::recommendation::{CreateRecRequest, UpdateRecRequest};
use farm_monitor::handlers::seed::{CreateSeedRequest, UpdateSeedRequest};
use farm_monitor::handlers::sensor::{CreateSensorRequest, UpdateSensorRequest};
use farm_monitor::handlers::valve::{CreateValveRequest, UpdateValveRequest};
use farm_monitor::memory;
use farm_monitor::models::automation::AutomationType;
use farm_monitor::models::pest_control::PestControlStatus;
use farm_monitor::models::recommendation::RecommendationType;
use farm_monitor::models::sensor::SensorType;
use farm_monitor::models::{land, plant, seed, sensor, sensor_history, user, user_role};
use farm_monitor::response::{Body, Reply, Status};
use farm_monitor::schema::Table;
use farm_monitor::store::Store;
use farm_monitor::values::{Real, Timestamp};

fn measure(x: f64) -> Real {
    Real::from_bits(x.to_bits())
}

fn instant(text: &str) -> Timestamp {
    let t = chrono::NaiveDateTime::parse_from_str(text, "%Y-%m-%dT%H:%M:%S").unwrap().and_utc();
    Timestamp::new(t.timestamp(), t.timestamp_subsec_nanos())
}

fn data<T>(reply: Reply<T>) -> T {
    match reply.body {
        Body::Data { data, .. } => data,
        _ => panic!("the reply carries no payload"),
    }
}

fn error<T>(reply: &Reply<T>) -> String {
    match &reply.body {
        Body::Error { error } => error.clone(),
        _ => panic!("the reply is no failure"),
    }
}

/// A store with one role and one user, whose keys are both 1.
fn store_with_user() -> Store {
    let mut store = Store::new();
    let role = store.insert_user_role(user_role::Model { id: 0, name: "farmer".to_string() }).unwrap();
    assert_eq!(role.id, 1);
    let user = store
        .insert_user(user::Model {
            id: 0,
            username: "ann".to_string(),
            password: "not a real hash".to_string(),
            user_role_id: 1,
        })
        .unwrap();
    assert_eq!(user.id, 1);
    store
}

fn north_field() -> CreateLandRequest {
    CreateLandRequest { location_name: "north field".to_string(), size: measure(1.2), user_id: 1 }
}

#[test]
fn scenario_seed_land_plant() {
    let mut store = store_with_user();
    let seed = data(memory::seed::create_seed(&mut store, &CreateSeedRequest { name: "corn".to_string() }));
    assert_eq!(seed, seed::Model { id: 1, name: "corn".to_string() });
    let land = data(memory::land::create_land(&mut store, &north_field()));
    assert_eq!(
        land,
        land::Model { id: 1, location_name: "north field".to_string(), size: measure(1.2), user_id: 1 }
    );
    let plant = data(memory::plant::create_plant(
        &mut store,
        &CreatePlantRequest {
            name: "corn row A".to_string(),
            quantity: 50,
            land_id: 1,
            seed_id: 1,
            planted_at: instant("2024-05-01T00:00:00"),
        },
    ));
    assert_eq!(plant.id, 1);
    let listed = memory::plant::get_plants_by_land(&store, 1);
    assert_eq!(listed.status, Status::Success);
    assert_eq!(
        data(listed),
        vec![plant::Model {
            id: 1,
            name: "corn row A".to_string(),
            quantity: 50,
            land_id: 1,
            seed_id: 1,
            planted_at: Timestamp::new(1714521600, 0),
        }]
    );
}

#[test]
fn created_land_is_returned_and_found() {
    let mut store = store_with_user();
    let reply = memory::land::create_land(&mut store, &north_field());
    assert_eq!(reply.status.code(), 200);
    assert!(reply.success());
    match &reply.body {
        Body::Data { message, .. } => assert_eq!(message.as_deref(), Some("Land created successfully")),
        _ => panic!("the reply carries no payload"),
    }
    let created = data(reply);
    assert_eq!(created.location_name, "north field");
    assert_eq!(created.size.to_bits(), 1.2f64.to_bits());
    assert_eq!(created.user_id, 1);
    let found = data(memory::land::get_land_by_id(&store, created.id));
    assert_eq!(found, created);
}

#[test]
fn keys_grow_and_are_not_handed_out_again() {
    let mut store = store_with_user();
    let a = data(memory::land::create_land(&mut store, &north_field()));
    let b = data(memory::land::create_land(&mut store, &north_field()));
    assert_eq!((a.id, b.id), (1, 2));
    assert!(memory::land::delete_land(&mut store, 2).success());
    let c = data(memory::land::create_land(&mut store, &north_field()));
    assert_eq!(c.id, 3);
}

#[test]
fn land_of_unknown_user_is_refused() {
    let mut store = store_with_user();
    let reply = memory::land::create_land(
        &mut store,
        &CreateLandRequest { location_name: "nowhere".to_string(), size: measure(3.0), user_id: 7 },
    );
    assert_eq!(reply.status, Status::InternalServerError);
    assert!(!reply.success());
    assert!(error(&reply).starts_with("Database error: "));
    assert_eq!(store.lands.rows.len(), 0);
}

#[test]
fn plant_needs_its_seed() {
    let mut store = store_with_user();
    memory::land::create_land(&mut store, &north_field());
    let reply = memory::plant::create_plant(
        &mut store,
        &CreatePlantRequest {
            name: "orphan".to_string(),
            quantity: 1,
            land_id: 1,
            seed_id: 1,
            planted_at: Timestamp::new(0, 0),
        },
    );
    assert_eq!(reply.status, Status::InternalServerError);
    assert_eq!(store.plants.rows.len(), 0);
}

#[test]
fn update_changes_only_the_supplied_fields() {
    let mut store = store_with_user();
    memory::land::create_land(&mut store, &north_field());
    memory::land::create_land(&mut store, &north_field());
    let changed = data(memory::land::update_land(
        &mut store,
        1,
        &UpdateLandRequest { location_name: None, size: Some(measure(4.5)), user_id: None },
    ));
    assert_eq!(
        changed,
        land::Model { id: 1, location_name: "north field".to_string(), size: measure(4.5), user_id: 1 }
    );
    assert_eq!(data(memory::land::get_land_by_id(&store, 1)), changed);
    let other = data(memory::land::get_land_by_id(&store, 2));
    assert_eq!(other.size, measure(1.2));
    let renamed = data(memory::land::update_land(
        &mut store,
        1,
        &UpdateLandRequest { location_name: Some("south field".to_string()), size: None, user_id: None },
    ));
    assert_eq!(renamed.location_name, "south field");
    assert_eq!(renamed.size, measure(4.5));
}

#[test]
fn update_keeps_the_order_of_insertion() {
    let mut store = store_with_user();
    memory::land::create_land(&mut store, &north_field());
    memory::land::create_land(&mut store, &north_field());
    memory::land::update_land(
        &mut store,
        1,
        &UpdateLandRequest { location_name: Some("first".to_string()), size: None, user_id: None },
    );
    let listed = data(memory::land::get_user_lands(&store, 1));
    assert_eq!(listed.iter().map(|l| l.id).collect::<Vec<_>>(), vec![1, 2]);
    assert_eq!(listed[0].location_name, "first");
}

#[test]
fn update_of_missing_row_is_not_found() {
    let mut store = store_with_user();
    let reply = memory::land::update_land(
        &mut store,
        9,
        &UpdateLandRequest { location_name: None, size: None, user_id: None },
    );
    assert_eq!(reply.status, Status::NotFound);
    assert_eq!(reply.status.code(), 404);
    assert_eq!(error(&reply), "Land not found");
}

#[test]
fn update_to_unknown_owner_is_refused_and_changes_nothing() {
    let mut store = store_with_user();
    memory::land::create_land(&mut store, &north_field());
    let reply = memory::land::update_land(
        &mut store,
        1,
        &UpdateLandRequest { location_name: Some("x".to_string()), size: None, user_id: Some(5) },
    );
    assert_eq!(reply.status, Status::InternalServerError);
    assert_eq!(data(memory::land::get_land_by_id(&store, 1)).location_name, "north field");
}

#[test]
fn delete_then_get_is_not_found() {
    let mut store = store_with_user();
    memory::land::create_land(&mut store, &north_field());
    let reply = memory::land::delete_land(&mut store, 1);
    assert_eq!(reply.status, Status::Success);
    assert_eq!(reply.body, Body::Done { message: Some("Land deleted successfully".to_string()) });
    let again = memory::land::get_land_by_id(&store, 1);
    assert_eq!(again.status, Status::NotFound);
    assert_eq!(error(&again), "Land not found");
}

#[test]
fn delete_of_missing_row_is_not_found() {
    let mut store = store_with_user();
    let reply = memory::land::delete_land(&mut store, 1);
    assert_eq!(reply.status, Status::NotFound);
    assert!(!reply.success());
    let reply = memory::pump::delete_pump(&mut store, 1);
    assert_eq!(reply.status, Status::NotFound);
    assert_eq!(error(&reply), "Not found");
    let reply = memory::automation::delete_automation(&mut store, 1);
    assert_eq!(reply.status, Status::NotFound);
}

#[test]
fn empty_list_is_a_success() {
    let store = store_with_user();
    let reply = memory::land::get_user_lands(&store, 1);
    assert_eq!(reply.status, Status::Success);
    assert_eq!(data(reply), vec![]);
    assert_eq!(data(memory::sensor::get_sensors(&store)), vec![]);
}

#[test]
fn lists_are_scoped_by_parent() {
    let mut store = store_with_user();
    store
        .insert_user(user::Model {
            id: 0,
            username: "bob".to_string(),
            password: "x".to_string(),
            user_role_id: 1,
        })
        .unwrap();
    memory::land::create_land(&mut store, &north_field());
    memory::land::create_land(
        &mut store,
        &CreateLandRequest { location_name: "bob's".to_string(), size: measure(2.0), user_id: 2 },
    );
    memory::land::create_land(&mut store, &north_field());
    let ann = data(memory::land::get_user_lands(&store, 1));
    assert_eq!(ann.iter().map(|l| l.id).collect::<Vec<_>>(), vec![1, 3]);
    let bob = data(memory::land::get_user_lands(&store, 2));
    assert_eq!(bob.iter().map(|l| l.id).collect::<Vec<_>>(), vec![2]);
}

#[test]
fn sensor_with_unknown_type_is_rejected() {
    let mut store = store_with_user();
    memory::land::create_land(&mut store, &north_field());
    let reply = memory::sensor::create_sensor(
        &mut store,
        &CreateSensorRequest { name: "s".to_string(), sensor_type: "Wetness".to_string(), land_id: 1 },
    );
    assert_eq!(reply.status, Status::BadRequest);
    assert_eq!(reply.status.code(), 400);
    assert_eq!(error(&reply), "Invalid sensor type: Wetness");
    assert_eq!(store.sensors.rows.len(), 0);
}

#[test]
fn sensor_types_are_read_by_name() {
    let mut store = store_with_user();
    memory::land::create_land(&mut store, &north_field());
    for (text, kind) in [
        ("Temperature", SensorType::Temperature),
        ("Humidity", SensorType::Humidity),
        ("SoilMoisture", SensorType::SoilMoisture),
        ("PH", SensorType::PH),
        ("LightIntensity", SensorType::LightIntensity),
    ] {
        let made = data(memory::sensor::create_sensor(
            &mut store,
            &CreateSensorRequest { name: "s".to_string(), sensor_type: text.to_string(), land_id: 1 },
        ));
        assert_eq!(made.sensor_type, kind);
    }
    let reply = memory::sensor::create_sensor(
        &mut store,
        &CreateSensorRequest { name: "s".to_string(), sensor_type: "temperature".to_string(), land_id: 1 },
    );
    assert_eq!(reply.status, Status::BadRequest);
}

#[test]
fn sensor_update_checks_the_type() {
    let mut store = store_with_user();
    memory::land::create_land(&mut store, &north_field());
    memory::sensor::create_sensor(
        &mut store,
        &CreateSensorRequest { name: "s".to_string(), sensor_type: "PH".to_string(), land_id: 1 },
    );
    let bad = memory::sensor::update_sensor(
        &mut store,
        1,
        &UpdateSensorRequest { name: Some("t".to_string()), sensor_type: Some("Wetness".to_string()) },
    );
    assert_eq!(bad.status, Status::BadRequest);
    assert_eq!(data(memory::sensor::get_sensor_by_id(&store, 1)).name, "s");
    let good = data(memory::sensor::update_sensor(
        &mut store,
        1,
        &UpdateSensorRequest { name: None, sensor_type: Some("Humidity".to_string()) },
    ));
    assert_eq!(
        good,
        sensor::Model { id: 1, name: "s".to_string(), sensor_type: SensorType::Humidity, land_id: 1 }
    );
    let missing = memory::sensor::update_sensor(
        &mut store,
        4,
        &UpdateSensorRequest { name: None, sensor_type: Some("Wetness".to_string()) },
    );
    assert_eq!(missing.status, Status::NotFound);
}

fn farm(store: &mut Store) {
    memory::seed::create_seed(store, &CreateSeedRequest { name: "corn".to_string() });
    memory::land::create_land(store, &north_field());
    memory::land::create_land(store, &north_field());
    for land_id in [1, 2] {
        memory::sensor::create_sensor(
            store,
            &CreateSensorRequest { name: "s".to_string(), sensor_type: "PH".to_string(), land_id },
        );
        memory::plant::create_plant(
            store,
            &CreatePlantRequest {
                name: "p".to_string(),
                quantity: 1,
                land_id,
                seed_id: 1,
                planted_at: Timestamp::new(5, 0),
            },
        );
        memory::valve::create_valve(store, &CreateValveRequest { name: "v".to_string(), land_id });
        memory::pump::create_pump(store, &CreatePumpRequest { name: "p".to_string(), land_id });
        memory::automation::create_automation(
            store,
            &CreateAutoRequest {
                name: "a".to_string(),
                automation_type: AutomationType::Watering,
                sensor_id: land_id,
                sensor_value: measure(0.5),
                pump_id: land_id,
                valve_id: land_id,
                land_id,
                dispense_amount: measure(2.0),
            },
        );
        memory::pest_control::create_pest_control(
            store,
            &CreatePestRequest { name: "c".to_string(), status: PestControlStatus::Wip, land_id },
        );
        store
            .insert_sensor_history(sensor_history::Model {
                id: 0,
                sensor_id: land_id,
                value: measure(1.0),
                recorded_at: Timestamp::new(10, 0),
            })
            .unwrap();
        memory::automation_history::create_automation_history_at(
            store,
            &farm_monitor::handlers::automation_history::CreateAutoHistoryRequest { automation_id: land_id },
            Timestamp::new(11, 0),
        );
    }
}

fn counts(store: &Store) -> [usize; 10] {
    [
        store.lands.rows.len(),
        store.sensors.rows.len(),
        store.sensor_histories.rows.len(),
        store.plants.rows.len(),
        store.valves.rows.len(),
        store.pumps.rows.len(),
        store.automations.rows.len(),
        store.automation_histories.rows.len(),
        store.pest_controls.rows.len(),
        store.seeds.rows.len(),
    ]
}

#[test]
fn deleting_a_land_takes_its_dependents() {
    let mut store = store_with_user();
    farm(&mut store);
    assert_eq!(counts(&store), [2, 2, 2, 2, 2, 2, 2, 2, 2, 1]);
    let reply = memory::land::delete_land(&mut store, 1);
    assert_eq!(reply.status, Status::Success);
    assert_eq!(counts(&store), [1, 1, 1, 1, 1, 1, 1, 1, 1, 1]);
    assert_eq!(data(memory::sensor::get_land_sensors(&store, 1)), vec![]);
    assert_eq!(data(memory::sensor::get_land_sensors(&store, 2)).len(), 1);
    assert_eq!(memory::sensor::get_sensor_by_id(&store, 1).status, Status::NotFound);
    assert_eq!(memory::plant::get_plant_by_id(&store, 1).status, Status::NotFound);
    assert_eq!(memory::valve::get_valve_by_id(&store, 1).status, Status::NotFound);
    assert_eq!(memory::pump::get_pump_by_id(&store, 1).status, Status::NotFound);
    assert_eq!(memory::automation::get_automation_by_id(&store, 1).status, Status::NotFound);
    assert_eq!(memory::pest_control::get_pest_control_by_id(&store, 1).status, Status::NotFound);
    assert_eq!(data(memory::sensor_history::get_history_by_sensor(&store, 1)), vec![]);
    assert_eq!(data(memory::automation_history::get_history_by_automation(&store, 1)), vec![]);
    assert_eq!(memory::plant::get_plant_by_id(&store, 2).status, Status::Success);
}

#[test]
fn deleting_a_user_takes_the_lands() {
    let mut store = store_with_user();
    farm(&mut store);
    let reply = memory::user::delete_user(&mut store, 1);
    assert_eq!(reply.status, Status::Success);
    assert_eq!(counts(&store), [0, 0, 0, 0, 0, 0, 0, 0, 0, 1]);
    assert_eq!(store.user_roles.rows.len(), 1);
}

#[test]
fn deleting_an_automation_takes_its_history() {
    let mut store = store_with_user();
    farm(&mut store);
    let reply = memory::automation::delete_automation(&mut store, 2);
    assert_eq!(reply.status, Status::Success);
    assert_eq!(reply.body, Body::Done { message: None });
    assert_eq!(store.automations.rows.len(), 1);
    assert_eq!(store.automation_histories.rows.len(), 1);
    assert_eq!(store.automation_histories.rows[0].automation_id, 1);
}

#[test]
fn deleting_a_seed_takes_plants_and_recommendations() {
    let mut store = store_with_user();
    farm(&mut store);
    memory::recommendation::create_recommendation(
        &mut store,
        &CreateRecRequest {
            name: "r".to_string(),
            description: "d".to_string(),
            rec_type: RecommendationType::Watering,
            seed_id: 1,
        },
    );
    assert_eq!(store.recommendations.rows.len(), 1);
    assert!(memory::seed::delete_seed(&mut store, 1).success());
    assert_eq!(store.plants.rows.len(), 0);
    assert_eq!(store.recommendations.rows.len(), 0);
    assert_eq!(store.lands.rows.len(), 2);
}

#[test]
fn sensor_in_use_by_an_automation_cannot_be_deleted() {
    let mut store = store_with_user();
    farm(&mut store);
    let reply = memory::sensor::delete_sensor(&mut store, 1);
    assert_eq!(reply.status, Status::InternalServerError);
    assert_eq!(store.sensors.rows.len(), 2);
    assert_eq!(store.sensor_histories.rows.len(), 2);
    assert!(memory::automation::delete_automation(&mut store, 1).success());
    let reply = memory::sensor::delete_sensor(&mut store, 1);
    assert_eq!(reply.status, Status::Success);
    assert_eq!(store.sensors.rows.len(), 1);
    assert_eq!(store.sensor_histories.rows.len(), 1);
    assert!(store.contains(Table::Sensor, 2));
    assert!(!store.contains(Table::Sensor, 1));
}

#[test]
fn land_whose_sensor_serves_another_land_cannot_be_deleted() {
    let mut store = store_with_user();
    farm(&mut store);
    let changed = memory::automation::update_automation(
        &mut store,
        2,
        &UpdateAutoRequest {
            name: None,
            automation_type: Some(AutomationType::Fertilization),
            sensor_id: Some(1),
            sensor_value: None,
            pump_id: None,
            valve_id: None,
            dispense_amount: None,
        },
    );
    let changed = data(changed);
    assert_eq!((changed.sensor_id, changed.pump_id, changed.valve_id, changed.land_id), (1, 2, 2, 2));
    assert_eq!(changed.automation_type, AutomationType::Fertilization);
    assert_eq!((changed.name.as_str(), changed.sensor_value, changed.dispense_amount), ("a", measure(0.5), measure(2.0)));
    let before = counts(&store);
    let reply = memory::land::delete_land(&mut store, 1);
    assert_eq!(reply.status, Status::InternalServerError);
    assert_eq!(counts(&store), before);
}

#[test]
fn other_entities_update_as_asked() {
    let mut store = store_with_user();
    farm(&mut store);
    let seed = data(memory::seed::update_seed(&mut store, 1, &UpdateSeedRequest { name: Some("maize".to_string()) }));
    assert_eq!(seed.name, "maize");
    let same = data(memory::seed::update_seed(&mut store, 1, &UpdateSeedRequest { name: None }));
    assert_eq!(same.name, "maize");
    let plant = data(memory::plant::update_plant(
        &mut store,
        1,
        &UpdatePlantRequest { name: None, quantity: Some(9), land_id: Some(2), planted_at: None },
    ));
    assert_eq!((plant.quantity, plant.land_id, plant.seed_id, plant.planted_at), (9, 2, 1, Timestamp::new(5, 0)));
    let pump = data(memory::pump::update_pump(&mut store, 1, &UpdatePumpRequest { name: Some("big".to_string()) }));
    assert_eq!((pump.name.as_str(), pump.land_id), ("big", 1));
    let valve = data(memory::valve::update_valve(&mut store, 2, &UpdateValveRequest { name: Some("main".to_string()) }));
    assert_eq!((valve.name.as_str(), valve.land_id), ("main", 2));
    let pest = data(memory::pest_control::update_pest_control(
        &mut store,
        1,
        &UpdatePestRequest { name: None, status: Some(PestControlStatus::Done) },
    ));
    assert_eq!((pest.name.as_str(), pest.status), ("c", PestControlStatus::Done));
    assert_eq!(memory::pump::update_pump(&mut store, 8, &UpdatePumpRequest { name: Some("x".to_string()) }).status, Status::NotFound);
    memory::recommendation::create_recommendation(
        &mut store,
        &CreateRecRequest {
            name: "r".to_string(),
            description: "d".to_string(),
            rec_type: RecommendationType::Watering,
            seed_id: 1,
        },
    );
    let rec = data(memory::recommendation::update_recommendation(
        &mut store,
        1,
        &UpdateRecRequest { name: None, description: Some("e".to_string()), rec_type: Some(RecommendationType::PestControl), seed_id: None },
    ));
    assert_eq!((rec.name.as_str(), rec.description.as_str(), rec.rec_type, rec.seed_id), ("r", "e", RecommendationType::PestControl, 1));
    assert_eq!(data(memory::recommendation::get_recommendations(&store)).len(), 1);
    assert_eq!(data(memory::recommendation::get_recommendation_by_id(&store, 1)), rec);
    assert!(memory::recommendation::delete_recommendation(&mut store, 1).success());
    assert!(memory::pest_control::delete_pest_control(&mut store, 1).success());
    assert!(memory::valve::delete_valve(&mut store, 2).status == Status::InternalServerError);
    assert_eq!(data(memory::pest_control::get_pest_controls_by_land(&store, 2)).len(), 1);
    assert_eq!(data(memory::pump::get_pumps_by_land(&store, 1)).len(), 1);
    assert_eq!(data(memory::valve::get_valves_by_land(&store, 1)).len(), 1);
    assert_eq!(data(memory::automation::get_automations_by_land(&store, 1)).len(), 1);
    assert_eq!(data(memory::seed::get_seeds(&store)).len(), 1);
    assert_eq!(data(memory::seed::get_seed_by_id(&store, 1)).name, "maize");
}

#[test]
fn automation_update_with_a_name_only_keeps_the_rest() {
    let mut store = store_with_user();
    farm(&mut store);
    let before = data(memory::automation::get_automation_by_id(&store, 1));
    let changed = data(memory::automation::update_automation(
        &mut store,
        1,
        &UpdateAutoRequest {
            name: Some("renamed".to_string()),
            automation_type: None,
            sensor_id: None,
            sensor_value: None,
            pump_id: None,
            valve_id: None,
            dispense_amount: None,
        },
    ));
    assert_eq!(changed.name, "renamed");
    assert_eq!(changed.automation_type, before.automation_type);
    assert_eq!((changed.sensor_id, changed.pump_id, changed.valve_id, changed.land_id), (1, 1, 1, 1));
    assert_eq!((changed.sensor_value, changed.dispense_amount), (before.sensor_value, before.dispense_amount));
    let kept = data(memory::pump::update_pump(&mut store, 1, &UpdatePumpRequest { name: None }));
    assert_eq!(kept.name, "p");
    let kept = data(memory::valve::update_valve(&mut store, 1, &UpdateValveRequest { name: None }));
    assert_eq!(kept.name, "v");
}

#[test]
fn history_comes_in_the_order_of_insertion() {
    let mut store = store_with_user();
    farm(&mut store);
    for (secs, nanos) in [(30, 0), (20, 5), (40, 0), (20, 9)] {
        store
            .insert_sensor_history(sensor_history::Model {
                id: 0,
                sensor_id: 1,
                value: measure(secs as f64),
                recorded_at: Timestamp::new(secs, nanos),
            })
            .unwrap();
    }
    let listed = data(memory::sensor_history::get_history_by_sensor(&store, 1));
    let stamps: Vec<(i64, u32)> = listed.iter().map(|h| (h.recorded_at.secs, h.recorded_at.nanos)).collect();
    assert_eq!(stamps, vec![(10, 0), (30, 0), (20, 5), (40, 0), (20, 9)]);
    assert_eq!(listed.iter().map(|h| h.id).collect::<Vec<_>>(), vec![1, 3, 4, 5, 6]);
    let latest = data(memory::sensor_history::get_latest_history_by_sensor(&store, 1));
    assert_eq!(latest.recorded_at, Timestamp::new(40, 0));
    assert_eq!(latest.value, measure(40.0));
    let none = memory::sensor_history::get_latest_history_by_sensor(&store, 9);
    assert_eq!(none.status, Status::NotFound);
    assert_eq!(error(&none), "No data recorded yet");
}

#[test]
fn automation_history_is_recorded_with_the_clock() {
    let mut store = store_with_user();
    farm(&mut store);
    let nothing = memory::automation_history::get_latest_history_by_automation(&store, 7);
    assert_eq!(nothing.status, Status::Success);
    assert_eq!(data(nothing), None);
    let made = data(memory::automation_history::create_automation_history(
        &mut store,
        &farm_monitor::handlers::automation_history::CreateAutoHistoryRequest { automation_id: 1 },
    ));
    assert_eq!(made.automation_id, 1);
    assert!(made.triggered_at.secs > 1_700_000_000);
    assert!(made.triggered_at.nanos < 2_000_000_000);
    let latest = data(memory::automation_history::get_latest_history_by_automation(&store, 1));
    assert_eq!(latest, Some(made));
    let listed = data(memory::automation_history::get_history_by_automation(&store, 1));
    assert_eq!(listed.len(), 2);
    assert_eq!(listed[0].triggered_at, Timestamp::new(11, 0));
    assert_eq!(listed[1].id, 3);
    let orphan = memory::automation_history::create_automation_history(
        &mut store,
        &farm_monitor::handlers::automation_history::CreateAutoHistoryRequest { automation_id: 77 },
    );
    assert_eq!(orphan.status, Status::InternalServerError);
}

#[test]
fn notifications_are_listed_by_user() {
    let mut store = store_with_user();
    store
        .insert_notification(farm_monitor::models::notification::Model {
            id: 0,
            user_id: 1,
            description: "hello".to_string(),
        })
        .unwrap();
    assert_eq!(data(memory::notification::get_notifications_by_user(&store, 1)).len(), 1);
    assert_eq!(data(memory::notification::get_notifications_by_user(&store, 2)).len(), 0);
    assert_eq!(data(memory::notification::get_all_notifications(&store))[0].description, "hello");
}
