//! Decision logic of a farm-monitoring backend: the entity model and its
//! consistency rules, the request handlers as explicit steps between store
//! interactions, the session gate, and an in-memory store against which the
//! handlers' laws are proved.

pub mod values;
pub mod schema;
pub mod response;
pub mod db;
pub mod password;
pub mod clock;
pub mod models;
pub mod session;
pub mod handlers;
pub mod seeder;
pub mod store;
pub mod memory;
