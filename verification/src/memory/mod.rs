//! The handlers run against the in-memory store: each function here takes a
//! handler through its steps and performs, on the store, what the handler
//! asks for. Their contracts say what a request does to the store and what it
//! answers.

pub mod auth;
pub mod automation;
pub mod automation_history;
pub mod land;
pub mod notification;
pub mod pest_control;
pub mod plant;
pub mod pump;
pub mod recommendation;
pub mod seed;
pub mod seed_items;
pub mod seed_rows;
pub mod seeder;
pub mod sensor;
pub mod sensor_history;
pub mod user;
pub mod valve;
