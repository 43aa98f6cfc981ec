//! The request handlers. A handler never touches the database itself: it is a
//! function from what has happened so far (a stage) to what is to be done
//! next, which is either one interaction with the store or the reply. The
//! caller performs the interaction and comes back with its outcome.
//!
//! A row that has not been stored yet carries the key 0; the store assigns the
//! key when it inserts the row.

use vstd::prelude::*;
use crate::db::DbError;
use crate::response::Reply;
use crate::schema::Table;

pub mod auth;
pub mod automation;
pub mod automation_history;
pub mod land;
pub mod notification;
pub mod pest_control;
pub mod plant;
pub mod pump;
pub mod recommendation;
pub mod seed;
pub mod sensor;
pub mod sensor_history;
pub mod user;
pub mod valve;

verus! {

/// How far a create handler has come.
#[derive(Debug, PartialEq, Eq)]
pub enum CreateStage<M> {
    /// Nothing has been asked of the store yet.
    Begin,
    /// The store has answered the insert: the row as stored, or a failure.
    Inserted(Result<M, DbError>),
}

/// What a create handler does next.
#[derive(Debug, PartialEq, Eq)]
pub enum CreateNext<M, R> {
    /// Insert this row, whose key the store assigns.
    Insert(M),
    Reply(Reply<R>),
}

/// How far a handler that looks up one row has come.
#[derive(Debug, PartialEq, Eq)]
pub enum FindStage<M> {
    Begin,
    /// The store has answered the lookup: the row, its absence, or a failure.
    Found(Result<Option<M>, DbError>),
}

/// What a handler that looks up one row by key does next.
#[derive(Debug, PartialEq, Eq)]
pub enum FindNext<R> {
    /// Look up the row with this key.
    Find(i32),
    Reply(Reply<R>),
}

/// What a handler that asks for the newest row under a parent does next.
#[derive(Debug, PartialEq, Eq)]
pub enum LatestNext<R> {
    /// Look up, among the rows that refer to this parent, one with the latest
    /// timestamp.
    Newest(Parent),
    Reply(Reply<R>),
}

/// A row of another table that rows refer to.
#[derive(Clone, Copy, Debug, PartialEq, Eq, Structural)]
pub struct Parent {
    pub table: Table,
    pub key: i32,
}

/// Which rows of a table a list handler asks for. They come in the order of
/// insertion.
#[derive(Clone, Copy, Debug, PartialEq, Eq, Structural)]
pub struct Selection {
    /// `Some(parent)` restricts the rows to those that refer to that row;
    /// `None` asks for all rows.
    pub parent: Option<Parent>,
}

/// How far a list handler has come.
#[derive(Debug, PartialEq, Eq)]
pub enum ListStage<M> {
    Begin,
    /// The store has answered the selection: the rows, or a failure.
    Listed(Result<Vec<M>, DbError>),
}

/// What a list handler does next.
#[derive(Debug, PartialEq, Eq)]
pub enum ListNext<R> {
    Select(Selection),
    Reply(Reply<R>),
}

/// How far an update handler has come.
#[derive(Debug, PartialEq, Eq)]
pub enum UpdateStage<M> {
    Begin,
    /// The store has answered the lookup of the row to change.
    Found(Result<Option<M>, DbError>),
    /// The store has answered the write: the row as stored, or a failure.
    Saved(Result<M, DbError>),
}

/// What an update handler does next.
#[derive(Debug, PartialEq, Eq)]
pub enum UpdateNext<M, R> {
    /// Look up the row with this key.
    Find(i32),
    /// Write this row over the stored row of the same key.
    Save(M),
    Reply(Reply<R>),
}

/// How far a delete handler that first looks the row up has come.
#[derive(Debug, PartialEq, Eq)]
pub enum DeleteStage<M> {
    Begin,
    /// The store has answered the lookup of the row to delete.
    Found(Result<Option<M>, DbError>),
    /// The store has answered the delete with the number of rows it removed
    /// from the table itself, or a failure.
    Deleted(Result<u64, DbError>),
}

/// What a delete handler that first looks the row up does next.
#[derive(Debug, PartialEq, Eq)]
pub enum DeleteNext<M, R> {
    /// Look up the row with this key.
    Find(i32),
    /// Delete this row.
    Delete(M),
    Reply(Reply<R>),
}

/// How far a handler that deletes by key has come.
#[derive(Debug, PartialEq, Eq)]
pub enum EraseStage {
    Begin,
    /// The store has answered the delete with the number of rows it removed
    /// from the table itself, or a failure.
    Deleted(Result<u64, DbError>),
}

/// What a handler that deletes by key does next.
#[derive(Debug, PartialEq, Eq)]
pub enum EraseNext<R> {
    /// Delete the row with this key, if there is one.
    Delete(i32),
    Reply(Reply<R>),
}

} // verus!
