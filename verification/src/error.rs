//! The error taxonomy of a merge run.

use vstd::prelude::*;
use crate::digits::{dec_rep_signed, i64_to_decimal};
use crate::mapping::EntityKind;

verus! {

/// A fatal fault during a merge run.
///
/// `Connection`: a store could not be reached; raised by the surrounding
/// program before any transaction opens, never by this crate's own logic.
/// `SchemaMismatch`: an expected column is absent from a row (or holds no
/// usable value where one is required); aborts the current merger.
/// `MalformedReference`: an embedded member array, or a member payload inside
/// it, is not valid JSON of the expected shape.
/// `DuplicateIdentifier`: the identifier set handed to mapping generation
/// contains the same identifier twice.
#[derive(Debug, Clone, PartialEq, Eq)]
pub enum MergeError {
    Connection,
    SchemaMismatch { column: String },
    MalformedReference,
    DuplicateIdentifier { kind: EntityKind, id: i64 },
}

/// The name of an entity kind, as error messages spell it.
pub open spec fn kind_name_spec(kind: EntityKind) -> Seq<char> {
    match kind {
        EntityKind::Account => "account"@,
        EntityKind::Player => "player"@,
        EntityKind::Clan => "clan"@,
        EntityKind::GiftCodeHistory => "gift code history"@,
        EntityKind::PlayerVip => "player vip"@,
    }
}

/// The name of an entity kind, as error messages spell it.
pub fn kind_name(kind: EntityKind) -> (r: &'static str)
    ensures
        r@ == kind_name_spec(kind),
{
    match kind {
        EntityKind::Account => "account",
        EntityKind::Player => "player",
        EntityKind::Clan => "clan",
        EntityKind::GiftCodeHistory => "gift code history",
        EntityKind::PlayerVip => "player vip",
    }
}

impl MergeError {
    /// The description an error renders to.
    pub open spec fn message_spec(self) -> Seq<char> {
        match self {
            MergeError::Connection => "store connection failed"@,
            MergeError::SchemaMismatch { column } => "missing or unusable column: "@ + column@,
            MergeError::MalformedReference => "malformed embedded member reference"@,
            MergeError::DuplicateIdentifier { kind, id } => "duplicate "@ + kind_name_spec(kind)
                + " identifier: "@ + dec_rep_signed(id as int),
        }
    }

    /// Renders the error for the operator.
    pub fn message(&self) -> (r: String)
        ensures
            r@ == self.message_spec(),
    {
        match self {
            MergeError::Connection => "store connection failed".to_owned(),
            MergeError::SchemaMismatch { column } => {
                let mut s = "missing or unusable column: ".to_owned();
                s.append(column.as_str());
                s
            },
            MergeError::MalformedReference => "malformed embedded member reference".to_owned(),
            MergeError::DuplicateIdentifier { kind, id } => {
                let mut s = "duplicate ".to_owned();
                s.append(kind_name(*kind));
                s.append(" identifier: ");
                let digits = i64_to_decimal(*id);
                s.append(digits.as_str());
                s
            },
        }
    }
}

} // verus!
