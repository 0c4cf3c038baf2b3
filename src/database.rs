//! The store's error kinds and the CRUD operations over one collection.
use vstd::prelude::*;

verus! {

#[verifier::external_type_specification]
#[verifier::external_body]
pub struct ExConnectionError(diesel::ConnectionError);

#[verifier::external_type_specification]
#[verifier::external_body]
pub struct ExQueryError(diesel::result::Error);

/// A failure of the store: the transport, or one operation.
#[derive(Debug)]
pub enum DatabaseError {
    ConnectionError(diesel::ConnectionError),
    QueryError(diesel::result::Error),
}

impl DatabaseError {
    pub open spec fn is_connection_error(&self) -> bool {
        self is ConnectionError
    }

    /// Whether the transport failed, rather than one operation.
    pub fn is_connection(&self) -> (r: bool)
        ensures
            r == self.is_connection_error(),
    {
        match self {
            DatabaseError::ConnectionError(_) => true,
            DatabaseError::QueryError(_) => false,
        }
    }
}

/// Whether an update reached a row: one that reached none names a record
/// that does not exist, which is an error, unlike a delete of such a record.
pub fn row_was_updated(updated_rows: usize) -> (r: bool)
    ensures
        r == (updated_rows > 0),
{
    updated_rows > 0
}

/// Get, create, update and delete over one collection keyed by an integer
/// identifier; `Q` is the record with its identifier, `I` the one without.
pub trait Operator<Q, I> {
    /// The record with the given identifier.
    fn get(&mut self, id_: i32) -> Result<Q, DatabaseError>;

    /// Inserts one new record; the store assigns its identifier.
    fn create(&mut self, insertable: I) -> Result<(), DatabaseError>;

    /// Overwrites every field of the record with the same identifier.
    fn update(&mut self, queriable: Q) -> Result<(), DatabaseError>;

    /// Removes the record with the given identifier, if there is one.
    fn delete(&mut self, id_: i32) -> Result<(), DatabaseError>;
}

} // verus!
