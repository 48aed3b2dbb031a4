use vstd::prelude::*;

verus! {

/// Which closed vocabulary a request string failed to match.
#[derive(Clone, Copy, Debug, PartialEq, Eq, Structural)]
pub enum EnumKind {
    ListingType,
    SortType,
}

/// The record that a required lookup could not find.
#[derive(Clone, Copy, Debug, PartialEq, Eq, Structural)]
pub enum Entity {
    Post,
    Community,
}

/// Failure of a read operation.
#[derive(Clone, Debug, PartialEq, Eq)]
pub enum ReadError {
    /// A request string is not in the closed vocabulary of `kind`.
    InvalidEnum(EnumKind, String),
    /// A record that the operation cannot do without does not exist.
    NotFound(Entity),
    /// The storage engine failed.
    QueryFailed,
}

/// What the storage engine reports when a read does not produce a value.
#[derive(Clone, Copy, Debug, PartialEq, Eq, Structural)]
pub enum FetchError {
    /// No record matches the key.
    Missing,
    /// The read itself failed (pool, connection or query error).
    Failed,
}

impl ReadError {
    /// The error is `InvalidEnum` of `kind` carrying the text `value`.
    pub open spec fn is_invalid_enum(self, kind: EnumKind, value: Seq<char>) -> bool {
        &&& self is InvalidEnum
        &&& self->InvalidEnum_0 == kind
        &&& self->InvalidEnum_1@ == value
    }
}

} // verus!
