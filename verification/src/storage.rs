//! What a storage engine reports for the statements of an operation.

use vstd::prelude::*;

verus! {

/// What a storage engine reported for a statement that changes or removes
/// rows.
#[derive(Clone, Copy, Debug, PartialEq, Eq, Structural)]
pub enum Written {
    /// The statement ran and touched this many rows.
    Rows(usize),
    /// The statement could not be prepared or run.
    Failed,
}

/// What a storage engine reported for a statement that adds one row.
#[derive(Clone, Copy, Debug, PartialEq, Eq, Structural)]
pub enum Inserted {
    /// The statement ran; `affected` rows were written and the engine's
    /// most recently assigned row id is `id`.
    Row { affected: usize, id: i64 },
    /// The statement was rejected, for instance by a constraint.
    Failed,
}

/// What a storage engine reported for a query that is read for its first
/// row only.
#[derive(Debug, PartialEq, Eq)]
pub enum Lookup<T> {
    /// The first matching row.
    Found(T),
    /// The query ran and matched nothing.
    Missing,
    /// The query could not be run, or its row could not be read.
    Failed,
}

/// One step of walking the rows of a query.
#[derive(Debug, PartialEq, Eq)]
pub enum Fetched<T> {
    /// A row that was read in full.
    Row(T),
    /// A row that could not be read into the expected shape.
    Unreadable,
}

/// What a storage engine reported for a query that is read to its end.
#[derive(Debug, PartialEq, Eq)]
pub enum Queried<T> {
    /// Every row that the query matched, in the order in which they came.
    Rows(Vec<T>),
    /// The query could not be prepared or run, or a row could not be read.
    Failed,
}

} // verus!
