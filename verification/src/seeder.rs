//! The reference data and the steps by which it is brought into the store.
//!
//! Seeding walks a fixed list of items. Each item has a natural key (a name,
//! the row it belongs to, or both); it is looked up first and inserted only
//! where no row has that key, so that seeding again adds no second copy.

use vstd::prelude::*;
use vstd::string::StringExecFns;
use crate::clock::now;
use crate::db::DbError;
use crate::handlers::Parent;
use crate::models::automation::AutomationType;
use crate::models::pest_control::PestControlStatus;
use crate::models::recommendation::RecommendationType;
use crate::models::sensor::SensorType;
use crate::models::{automation, automation_history, land, notification, pest_control, plant, pump, recommendation, seed, sensor, sensor_history, user, user_role, valve};
use crate::models::Record;
use crate::password::{hash_password, at_rest};
use crate::schema::Table;
use crate::values::{Real, Timestamp};

verus! {

/// The number of items of reference data.
pub const ITEMS: u8 = 20;

/// The cost factor with which the seeded password is hashed.
pub const DEFAULT_COST: u32 = 12;

/// The keys of the rows that later items refer to, as far as they are known.
#[derive(Clone, Copy, Debug, PartialEq, Eq, Structural)]
pub struct Keys {
    pub admin_role: i32,
    pub farmer_role: i32,
    pub consultant_role: i32,
    pub farmer: i32,
    pub seed: i32,
    pub land: i32,
    pub sensor: i32,
    pub valve: i32,
    pub pump: i32,
    pub automation: i32,
}

/// How far seeding has come.
#[derive(Debug, PartialEq, Eq)]
pub struct SeedState {
    /// The item that is being worked on; `ITEMS` once all are done.
    pub item: u8,
    pub keys: Keys,
    /// The hash of the seeded password, once the roles are in place.
    pub hash: String,
}

/// Which row a lookup asks for: the first row of `table` with the given name
/// and parent, where they are given.
#[derive(Debug, PartialEq, Eq)]
pub struct Lookup {
    pub table: Table,
    pub name: Option<String>,
    pub parent: Option<Parent>,
}

/// Why seeding failed.
#[derive(Debug, PartialEq, Eq)]
pub enum SeedError {
    /// The password could not be hashed.
    Hash,
    /// The store refused a lookup or an insert.
    Database(DbError),
}

/// What the store answered to the last step of seeding.
#[derive(Debug, PartialEq, Eq)]
pub enum SeedEvent {
    /// Nothing has been asked yet.
    Begin,
    /// The key of the row that the lookup found, if it found one.
    Found(Result<Option<i32>, DbError>),
    /// The key that the store gave to the inserted row.
    Inserted(Result<i32, DbError>),
}

/// What seeding does next.
#[derive(Debug, PartialEq, Eq)]
pub enum SeedNext {
    Find(Lookup),
    /// Insert this row, whose key the store assigns.
    Insert(Record),
    /// Seeding has ended, with success or with the failure that stopped it.
    Finish(Result<(), SeedError>),
}

/// The table that an item belongs to.
pub open spec fn item_table(item: u8) -> Table {
    if item <= 2 {
        Table::UserRole
    } else if item <= 5 {
        Table::User
    } else if item == 6 {
        Table::Seed
    } else if item == 7 {
        Table::Land
    } else if item == 8 {
        Table::Sensor
    } else if item == 9 {
        Table::SensorHistory
    } else if item == 10 {
        Table::Plant
    } else if item == 11 {
        Table::Valve
    } else if item == 12 {
        Table::Pump
    } else if item == 13 {
        Table::Automation
    } else if item == 14 {
        Table::AutomationHistory
    } else if item <= 17 {
        Table::Recommendation
    } else if item == 18 {
        Table::PestControl
    } else {
        Table::Notification
    }
}

/// The name that an item is known by; `None` for an item without a name.
pub open spec fn item_name(item: u8) -> Option<Seq<char>> {
    if item == 0 {
        Some("admin"@)
    } else if item == 1 {
        Some("farmer"@)
    } else if item == 2 {
        Some("consultant"@)
    } else if item == 3 {
        Some("miracleandsleeper"@)
    } else if item == 4 {
        Some("november rain"@)
    } else if item == 5 {
        Some("imagine"@)
    } else if item == 6 {
        Some("canon rock"@)
    } else if item == 7 {
        Some("be nice 2 me"@)
    } else if item == 8 {
        Some("We Didn't Start The Fire"@)
    } else if item == 10 {
        Some("heaven and hell"@)
    } else if item == 11 {
        Some("let it be"@)
    } else if item == 12 {
        Some("One"@)
    } else if item == 13 {
        Some("fuwa fuwa time"@)
    } else if item == 15 {
        Some("Always with me"@)
    } else if item == 16 {
        Some("One summer day"@)
    } else if item == 17 {
        Some("Is there still anything"@)
    } else if item == 18 {
        Some("come sweet death"@)
    } else if item == 19 {
        Some("coat i would buy"@)
    } else {
        None
    }
}

/// The row under which an item is looked up; `None` for an item that is
/// looked up by its name alone.
pub open spec fn item_parent(item: u8, keys: Keys) -> Option<Parent> {
    if item == 7 {
        Some(Parent { table: Table::User, key: keys.farmer })
    } else if item == 8 || (10 <= item <= 13) {
        Some(Parent { table: Table::Land, key: keys.land })
    } else if item == 9 {
        Some(Parent { table: Table::Sensor, key: keys.sensor })
    } else if item == 14 {
        Some(Parent { table: Table::Automation, key: keys.automation })
    } else if 15 <= item <= 17 {
        Some(Parent { table: Table::Seed, key: keys.seed })
    } else if item == 18 {
        Some(Parent { table: Table::Land, key: keys.land })
    } else if item == 19 {
        Some(Parent { table: Table::User, key: keys.farmer })
    } else {
        None
    }
}

/// Whether `lookup` is the lookup of an item: by the item's table, its
/// name where it has one, and its parent where it has one.
pub open spec fn looks_for(lookup: Lookup, item: u8, keys: Keys) -> bool {
    &&& lookup.table == item_table(item)
    &&& match (lookup.name, item_name(item)) {
        (Some(n), Some(m)) => n@ == m,
        (None, None) => true,
        _ => false,
    }
    &&& lookup.parent == item_parent(item, keys)
}

/// Whether `record` is the row of an item, with the key 0 that a row carries
/// before it is stored, given the keys of the rows it refers to, the hash of
/// the seeded password and the instant of seeding.
pub open spec fn describes(record: Record, item: u8, keys: Keys, hash: Seq<char>, at: Timestamp) -> bool {
    if item <= 2 {
        record matches Record::UserRole(r) && r.id == 0 && Some(r.name@) == item_name(item)
    } else if item <= 5 {
        record matches Record::User(r) && r.id == 0 && Some(r.username@) == item_name(item)
            && r.password@ == hash && r.user_role_id == (if item == 3 {
            keys.admin_role
        } else if item == 4 {
            keys.farmer_role
        } else {
            keys.consultant_role
        })
    } else if item == 6 {
        record matches Record::Seed(r) && r.id == 0 && Some(r.name@) == item_name(item)
    } else if item == 7 {
        record matches Record::Land(r) && r.id == 0 && Some(r.location_name@) == item_name(item)
            && r.size.bits == 0x4004_0000_0000_0000 && r.user_id == keys.farmer
    } else if item == 8 {
        record matches Record::Sensor(r) && r.id == 0 && Some(r.name@) == item_name(item)
            && r.sensor_type == SensorType::Temperature && r.land_id == keys.land
    } else if item == 9 {
        record matches Record::SensorHistory(r) && r.id == 0 && r.sensor_id == keys.sensor
            && r.value.bits == 0x403c_8000_0000_0000 && r.recorded_at == at
    } else if item == 10 {
        record matches Record::Plant(r) && r.id == 0 && Some(r.name@) == item_name(item)
            && r.quantity == 32 && r.land_id == keys.land && r.seed_id == keys.seed
            && r.planted_at == at
    } else if item == 11 {
        record matches Record::Valve(r) && r.id == 0 && Some(r.name@) == item_name(item)
            && r.land_id == keys.land
    } else if item == 12 {
        record matches Record::Pump(r) && r.id == 0 && Some(r.name@) == item_name(item)
            && r.land_id == keys.land
    } else if item == 13 {
        record matches Record::Automation(r) && r.id == 0 && Some(r.name@) == item_name(item)
            && r.automation_type == AutomationType::Watering && r.sensor_id == keys.sensor
            && r.sensor_value.bits == 0x401a_cccc_cccc_cccd && r.pump_id == keys.pump
            && r.valve_id == keys.valve && r.land_id == keys.land && r.dispense_amount.bits
            == 0x4014_0000_0000_0000
    } else if item == 14 {
        record matches Record::AutomationHistory(r) && r.id == 0 && r.automation_id
            == keys.automation && r.triggered_at == at
    } else if item <= 17 {
        record matches Record::Recommendation(r) && r.id == 0 && Some(r.name@) == item_name(item)
            && r.description@ == "idk"@ && r.seed_id == keys.seed && r.rec_type == (if item
            == 15 {
            RecommendationType::Watering
        } else if item == 16 {
            RecommendationType::Fertilization
        } else {
            RecommendationType::PestControl
        })
    } else if item == 18 {
        record matches Record::PestControl(r) && r.id == 0 && Some(r.name@) == item_name(item)
            && r.status == PestControlStatus::NoAction && r.land_id == keys.land
    } else {
        record matches Record::Notification(r) && r.id == 0 && r.user_id == keys.farmer && Some(
            r.description@,
        ) == item_name(item)
    }
}

/// The keys after the row of `item` has become known under the key `id`.
pub open spec fn remember(keys: Keys, item: u8, id: i32) -> Keys {
    if item == 0 {
        Keys { admin_role: id, ..keys }
    } else if item == 1 {
        Keys { farmer_role: id, ..keys }
    } else if item == 2 {
        Keys { consultant_role: id, ..keys }
    } else if item == 4 {
        Keys { farmer: id, ..keys }
    } else if item == 6 {
        Keys { seed: id, ..keys }
    } else if item == 7 {
        Keys { land: id, ..keys }
    } else if item == 8 {
        Keys { sensor: id, ..keys }
    } else if item == 11 {
        Keys { valve: id, ..keys }
    } else if item == 12 {
        Keys { pump: id, ..keys }
    } else if item == 13 {
        Keys { automation: id, ..keys }
    } else {
        keys
    }
}

/// Whether `next` is the first step of an item: its lookup, or the end once
/// all items are done.
pub open spec fn opens(next: SeedNext, item: u8, keys: Keys) -> bool {
    if item < ITEMS {
        next matches SeedNext::Find(l) && looks_for(l, item, keys)
    } else {
        next == SeedNext::Finish(Ok(()))
    }
}

/// The key under which an event reports the row of the current item, where
/// it reports one.
pub open spec fn reported(event: SeedEvent) -> Option<i32> {
    match event {
        SeedEvent::Found(Ok(Some(id))) => Some(id),
        SeedEvent::Inserted(Ok(id)) => Some(id),
        _ => None,
    }
}

/// Whether seeding goes from `state` to `after` and does `next` when the
/// store answers with `event`, where `hashed` is the outcome of hashing the
/// seeded password and `at` the instant of the step.
///
/// - A failure of the store ends seeding with that failure.
/// - A lookup that found nothing is followed by the insert of the item.
/// - Once the row of an item is known, its key is remembered and the next item
///   begins. The password is hashed when the last role is known: where that
///   fails, seeding ends with the failure.
pub open spec fn steps(
    state: SeedState,
    event: SeedEvent,
    hashed: Option<String>,
    at: Timestamp,
    after: SeedState,
    next: SeedNext,
) -> bool {
    if state.item >= ITEMS {
        after == state && next == SeedNext::Finish(Ok(()))
    } else {
        match event {
            SeedEvent::Begin => after == state && opens(next, state.item, state.keys),
            SeedEvent::Found(Err(e)) => after == state && next == SeedNext::Finish(
                Err(SeedError::Database(e)),
            ),
            SeedEvent::Inserted(Err(e)) => after == state && next == SeedNext::Finish(
                Err(SeedError::Database(e)),
            ),
            SeedEvent::Found(Ok(None)) => next matches SeedNext::Insert(r) && describes(
                r,
                state.item,
                state.keys,
                state.hash@,
                at,
            ) && after == state,
            _ => {
                let id = reported(event)->0;
                &&& after.keys == remember(state.keys, state.item, id)
                &&& if state.item == 2 {
                    match hashed {
                        Some(h) => after.item == 3 && after.hash == h && opens(next, 3, after.keys),
                        None => after.item == 2 && after.hash == state.hash && next
                            == SeedNext::Finish(Err(SeedError::Hash)),
                    }
                } else {
                    &&& after.item == state.item + 1
                    &&& after.hash == state.hash
                    &&& opens(next, after.item, after.keys)
                }
            },
        }
    }
}

impl SeedState {
    /// The state in which seeding begins: at the first item, with no key known.
    pub fn new() -> (state: SeedState)
        ensures
            state.item == 0,
            state.keys == (Keys {
                admin_role: 0,
                farmer_role: 0,
                consultant_role: 0,
                farmer: 0,
                seed: 0,
                land: 0,
                sensor: 0,
                valve: 0,
                pump: 0,
                automation: 0,
            }),
            state.hash@ == Seq::<char>::empty(),
    {
        SeedState {
            item: 0,
            keys: Keys {
                admin_role: 0,
                farmer_role: 0,
                consultant_role: 0,
                farmer: 0,
                seed: 0,
                land: 0,
                sensor: 0,
                valve: 0,
                pump: 0,
                automation: 0,
            },
            hash: String::new(),
        }
    }
}

fn name_of(item: u8) -> (name: Option<String>)
    ensures
        match (name, item_name(item)) {
            (Some(n), Some(m)) => n@ == m,
            (None, None) => true,
            _ => false,
        },
{
    if item == 0 {
        Some("admin".to_owned())
    } else if item == 1 {
        Some("farmer".to_owned())
    } else if item == 2 {
        Some("consultant".to_owned())
    } else if item == 3 {
        Some("miracleandsleeper".to_owned())
    } else if item == 4 {
        Some("november rain".to_owned())
    } else if item == 5 {
        Some("imagine".to_owned())
    } else if item == 6 {
        Some("canon rock".to_owned())
    } else if item == 7 {
        Some("be nice 2 me".to_owned())
    } else if item == 8 {
        Some("We Didn't Start The Fire".to_owned())
    } else if item == 10 {
        Some("heaven and hell".to_owned())
    } else if item == 11 {
        Some("let it be".to_owned())
    } else if item == 12 {
        Some("One".to_owned())
    } else if item == 13 {
        Some("fuwa fuwa time".to_owned())
    } else if item == 15 {
        Some("Always with me".to_owned())
    } else if item == 16 {
        Some("One summer day".to_owned())
    } else if item == 17 {
        Some("Is there still anything".to_owned())
    } else if item == 18 {
        Some("come sweet death".to_owned())
    } else if item == 19 {
        Some("coat i would buy".to_owned())
    } else {
        None
    }
}

fn text_of(item: u8) -> (name: String)
    requires
        item_name(item) is Some,
    ensures
        Some(name@) == item_name(item),
{
    match name_of(item) {
        Some(n) => n,
        None => String::new(),
    }
}

fn parent_of(item: u8, keys: &Keys) -> (parent: Option<Parent>)
    ensures
        parent == item_parent(item, *keys),
{
    if item == 7 {
        Some(Parent { table: Table::User, key: keys.farmer })
    } else if item == 8 || (10 <= item && item <= 13) {
        Some(Parent { table: Table::Land, key: keys.land })
    } else if item == 9 {
        Some(Parent { table: Table::Sensor, key: keys.sensor })
    } else if item == 14 {
        Some(Parent { table: Table::Automation, key: keys.automation })
    } else if 15 <= item && item <= 17 {
        Some(Parent { table: Table::Seed, key: keys.seed })
    } else if item == 18 {
        Some(Parent { table: Table::Land, key: keys.land })
    } else if item == 19 {
        Some(Parent { table: Table::User, key: keys.farmer })
    } else {
        None
    }
}

fn table_of(item: u8) -> (table: Table)
    ensures
        table == item_table(item),
{
    if item <= 2 {
        Table::UserRole
    } else if item <= 5 {
        Table::User
    } else if item == 6 {
        Table::Seed
    } else if item == 7 {
        Table::Land
    } else if item == 8 {
        Table::Sensor
    } else if item == 9 {
        Table::SensorHistory
    } else if item == 10 {
        Table::Plant
    } else if item == 11 {
        Table::Valve
    } else if item == 12 {
        Table::Pump
    } else if item == 13 {
        Table::Automation
    } else if item == 14 {
        Table::AutomationHistory
    } else if item <= 17 {
        Table::Recommendation
    } else if item == 18 {
        Table::PestControl
    } else {
        Table::Notification
    }
}

/// The row of an item, before the store has given it a key.
fn record_of(item: u8, keys: &Keys, hash: &String, at: Timestamp) -> (record: Record)
    requires
        item < ITEMS,
    ensures
        describes(record, item, *keys, hash@, at),
        record.table_spec() == item_table(item),
{
    if item <= 2 {
        Record::UserRole(user_role::Model { id: 0, name: text_of(item) })
    } else if item <= 5 {
        let role = if item == 3 {
            keys.admin_role
        } else if item == 4 {
            keys.farmer_role
        } else {
            keys.consultant_role
        };
        Record::User(
            user::Model { id: 0, username: text_of(item), password: hash.clone(), user_role_id: role },
        )
    } else if item == 6 {
        Record::Seed(seed::Model { id: 0, name: text_of(item) })
    } else if item == 7 {
        Record::Land(
            land::Model {
                id: 0,
                location_name: text_of(item),
                size: Real::from_bits(0x4004_0000_0000_0000),
                user_id: keys.farmer,
            },
        )
    } else if item == 8 {
        Record::Sensor(
            sensor::Model {
                id: 0,
                name: text_of(item),
                sensor_type: SensorType::Temperature,
                land_id: keys.land,
            },
        )
    } else if item == 9 {
        Record::SensorHistory(
            sensor_history::Model {
                id: 0,
                sensor_id: keys.sensor,
                value: Real::from_bits(0x403c_8000_0000_0000),
                recorded_at: at,
            },
        )
    } else if item == 10 {
        Record::Plant(
            plant::Model {
                id: 0,
                name: text_of(item),
                quantity: 32,
                land_id: keys.land,
                seed_id: keys.seed,
                planted_at: at,
            },
        )
    } else if item == 11 {
        Record::Valve(valve::Model { id: 0, name: text_of(item), land_id: keys.land })
    } else if item == 12 {
        Record::Pump(pump::Model { id: 0, name: text_of(item), land_id: keys.land })
    } else if item == 13 {
        Record::Automation(
            automation::Model {
                id: 0,
                name: text_of(item),
                automation_type: AutomationType::Watering,
                sensor_id: keys.sensor,
                sensor_value: Real::from_bits(0x401a_cccc_cccc_cccd),
                pump_id: keys.pump,
                valve_id: keys.valve,
                land_id: keys.land,
                dispense_amount: Real::from_bits(0x4014_0000_0000_0000),
            },
        )
    } else if item == 14 {
        Record::AutomationHistory(
            automation_history::Model { id: 0, automation_id: keys.automation, triggered_at: at },
        )
    } else if item <= 17 {
        let rec_type = if item == 15 {
            RecommendationType::Watering
        } else if item == 16 {
            RecommendationType::Fertilization
        } else {
            RecommendationType::PestControl
        };
        Record::Recommendation(
            recommendation::Model {
                id: 0,
                name: text_of(item),
                description: "idk".to_owned(),
                rec_type,
                seed_id: keys.seed,
            },
        )
    } else if item == 18 {
        Record::PestControl(
            pest_control::Model {
                id: 0,
                name: text_of(item),
                status: PestControlStatus::NoAction,
                land_id: keys.land,
            },
        )
    } else {
        Record::Notification(
            notification::Model { id: 0, user_id: keys.farmer, description: text_of(item) },
        )
    }
}

fn remembered(keys: Keys, item: u8, id: i32) -> (after: Keys)
    ensures
        after == remember(keys, item, id),
{
    if item == 0 {
        Keys { admin_role: id, ..keys }
    } else if item == 1 {
        Keys { farmer_role: id, ..keys }
    } else if item == 2 {
        Keys { consultant_role: id, ..keys }
    } else if item == 4 {
        Keys { farmer: id, ..keys }
    } else if item == 6 {
        Keys { seed: id, ..keys }
    } else if item == 7 {
        Keys { land: id, ..keys }
    } else if item == 8 {
        Keys { sensor: id, ..keys }
    } else if item == 11 {
        Keys { valve: id, ..keys }
    } else if item == 12 {
        Keys { pump: id, ..keys }
    } else if item == 13 {
        Keys { automation: id, ..keys }
    } else {
        keys
    }
}

fn open_item(item: u8, keys: &Keys) -> (next: SeedNext)
    requires
        item <= ITEMS,
    ensures
        opens(next, item, *keys),
{
    if item < ITEMS {
        SeedNext::Find(
            Lookup { table: table_of(item), name: name_of(item), parent: parent_of(item, keys) },
        )
    } else {
        SeedNext::Finish(Ok(()))
    }
}

/// One step of seeding, given the outcome of hashing the seeded password and
/// the instant of the step.
pub fn seed_step(state: SeedState, event: SeedEvent, hashed: Option<String>, at: Timestamp) -> (r: (
    SeedState,
    SeedNext,
))
    ensures
        steps(state, event, hashed, at, r.0, r.1),
{
    if state.item >= ITEMS {
        return (state, SeedNext::Finish(Ok(())));
    }
    match event {
        SeedEvent::Begin => {
            let next = open_item(state.item, &state.keys);
            (state, next)
        },
        SeedEvent::Found(Err(e)) => (state, SeedNext::Finish(Err(SeedError::Database(e)))),
        SeedEvent::Inserted(Err(e)) => (state, SeedNext::Finish(Err(SeedError::Database(e)))),
        SeedEvent::Found(Ok(None)) => {
            let next = SeedNext::Insert(record_of(state.item, &state.keys, &state.hash, at));
            (state, next)
        },
        SeedEvent::Found(Ok(Some(id))) => advance(state, id, hashed, at),
        SeedEvent::Inserted(Ok(id)) => advance(state, id, hashed, at),
    }
}

fn advance(state: SeedState, id: i32, hashed: Option<String>, at: Timestamp) -> (r: (
    SeedState,
    SeedNext,
))
    requires
        state.item < ITEMS,
    ensures
        steps(state, SeedEvent::Inserted(Ok(id)), hashed, at, r.0, r.1),
        steps(state, SeedEvent::Found(Ok(Some(id))), hashed, at, r.0, r.1),
{
    let keys = remembered(state.keys, state.item, id);
    if state.item == 2 {
        match hashed {
            Some(h) => {
                let next = open_item(3, &keys);
                (SeedState { item: 3, keys, hash: h }, next)
            },
            None => (
                SeedState { item: 2, keys, hash: state.hash },
                SeedNext::Finish(Err(SeedError::Hash)),
            ),
        }
    } else {
        let item = state.item + 1;
        let next = open_item(item, &keys);
        (SeedState { item, keys, hash: state.hash }, next)
    }
}

/// One step of seeding: from how far seeding has come and what the store
/// answered to what is asked of the store next. The password "1234" is hashed
/// when the last role has become known, and rows that carry a timestamp take
/// the local time of the step; so the step is one of those that `steps` allows
/// for some hash that matches the password, or for a failure to hash, and for
/// some instant.
pub fn seed_db(state: SeedState, event: SeedEvent) -> (r: (SeedState, SeedNext))
    ensures
        exists|hashed: Option<String>, at: Timestamp|
            {
                &&& steps(state, event, hashed, at, r.0, r.1)
                &&& hashed matches Some(h) ==> at_rest("1234"@, h@)
            },
{
    let at = now();
    let wanted = state.item == 2 && match &event {
        SeedEvent::Found(Ok(Some(_))) => true,
        SeedEvent::Inserted(Ok(_)) => true,
        _ => false,
    };
    let hashed = if wanted {
        hash_password("1234", DEFAULT_COST)
    } else {
        None
    };
    let r = seed_step(state, event, hashed, at);
    proof {
        assert(steps(state, event, hashed, at, r.0, r.1));
    }
    r
}

} // verus!
