//! The error taxonomy of the core: input validation failures, storage-item
//! decode failures, and the errors a query can end in.

use vstd::prelude::*;

verus! {

/// The error body returned to clients: a human-readable reason.
pub struct Error {
    reason: String,
}

impl Error {
    pub closed spec fn reason_view(&self) -> Seq<char> {
        self.reason@
    }

    pub fn new(reason: &str) -> (r: Self)
        ensures
            r.reason_view() == reason@,
    {
        Self { reason: reason.to_owned() }
    }

    pub fn reason(&self) -> (r: &str)
        ensures
            r@ == self.reason_view(),
    {
        self.reason.as_str()
    }
}

/// A request was rejected before touching storage. Each variant names the
/// exact check that failed.
#[derive(Debug)]
pub enum ValidationError {
    /// `user` is empty.
    EmptyUser,
    /// `game` is empty.
    EmptyGame,
    /// `stat` is empty.
    EmptyStat,
    /// `value` is a NaN or an infinity.
    NonFiniteValue,
    /// `day` is not a non-negative whole-day multiple.
    MalformedDay,
    /// A query field is not one of the accepted names.
    UnknownField(String),
    /// A query field occurs twice.
    DuplicateField(String),
    /// A required query field is absent; holds the field's name.
    MissingField(String),
    /// `count` is not an integer in [1, 1000].
    BadCount,
    /// `sort` is neither `ascending` nor `descending` (case-insensitive).
    BadSort,
}

/// A storage item could not be decoded into a stat view. Each variant
/// names the attribute that failed.
#[derive(Debug)]
pub enum DecodeError {
    /// The attribute is absent from the item.
    MissingAttribute(String),
    /// The attribute carries the wrong tag (string where a number is
    /// expected, or the reverse).
    WrongType(String),
    /// A number attribute does not hold a parsable unsigned decimal.
    BadNumber(String),
}

/// A query failed: either the storage collaborator reported an error
/// (carried here as its rendered message), or a returned item could not
/// be decoded.
#[derive(Debug)]
pub enum QueryError {
    Db(String),
    Parse(DecodeError),
}

} // verus!
