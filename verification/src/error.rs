//! The failure taxonomy shared by every store operation.

use vstd::prelude::*;
use vstd::string::*;

verus! {

/// Why a store operation did not go through.
#[derive(Clone, Copy, Debug, PartialEq, Eq, Structural)]
pub enum StoreError {
    /// The project directory or its database file could not be read or written.
    IoFailure,
    /// The stored tables could not be brought to a usable shape.
    SchemaFailure,
    /// A row repeats an identity that must be unique.
    ConstraintViolation,
    /// The operation names a project, shot or asset that does not exist.
    NotFound,
    /// The request itself is not acceptable.
    ValidationFailure,
}

impl StoreError {
    /// The text shown for each failure.
    pub open spec fn message_text(self) -> Seq<char> {
        match self {
            StoreError::IoFailure => "the project files could not be read or written"@,
            StoreError::SchemaFailure => "the project database could not be brought up to date"@,
            StoreError::ConstraintViolation => "an identifier that must be unique occurs twice"@,
            StoreError::NotFound => "no such project, shot or asset"@,
            StoreError::ValidationFailure => "the request is not valid"@,
        }
    }

    /// A human-readable message for this failure.
    pub fn message(&self) -> (text: String)
        ensures
            text@ == self.message_text(),
    {
        match self {
            StoreError::IoFailure => String::from_str(
                "the project files could not be read or written",
            ),
            StoreError::SchemaFailure => String::from_str(
                "the project database could not be brought up to date",
            ),
            StoreError::ConstraintViolation => String::from_str(
                "an identifier that must be unique occurs twice",
            ),
            StoreError::NotFound => String::from_str("no such project, shot or asset"),
            StoreError::ValidationFailure => String::from_str("the request is not valid"),
        }
    }
}

} // verus!
