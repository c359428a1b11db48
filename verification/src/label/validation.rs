//! The rule a label name must satisfy, and the error that reports a breach.

use vstd::prelude::*;

verus! {

/// Fewest characters a label name may have.
pub const MIN_NAME_LEN: u64 = 1;

/// Most characters a label name may have.
pub const MAX_NAME_LEN: u64 = 255;

/// A name is acceptable when its number of characters lies in
/// `MIN_NAME_LEN ..= MAX_NAME_LEN`.
pub open spec fn name_length_ok(name: Seq<char>) -> bool {
    MIN_NAME_LEN <= name.len() <= MAX_NAME_LEN
}

/// The field a validation error speaks of.
#[derive(Debug, Clone, Copy, PartialEq, Eq, Structural)]
pub enum Field {
    /// The name of a label.
    LabelName,
}

/// The constraint a field failed to meet.
#[derive(Debug, Clone, Copy, PartialEq, Eq, Structural)]
pub enum Constraint {
    /// The number of characters must lie in `min ..= max`.
    Length { min: u64, max: u64 },
}

/// Why a value was refused: which field, and which constraint it broke.
#[derive(Debug, Clone, Copy, PartialEq, Eq, Structural)]
pub struct ValidationError {
    pub field: Field,
    pub constraint: Constraint,
}

/// The error for a label name whose length is out of bounds.
pub open spec fn name_length_error() -> ValidationError {
    ValidationError {
        field: Field::LabelName,
        constraint: Constraint::Length { min: MIN_NAME_LEN, max: MAX_NAME_LEN },
    }
}

/// `validator::ValidateLength::validate_length` on a `String`, with both
/// bounds given and no exact length asked for. The crate counts the string's
/// `chars()` and answers `true` exactly when that count is neither below
/// `min` nor above `max`.
#[verifier::external_body]
fn length_within(value: &String, min: u64, max: u64) -> (ok: bool)
    ensures
        ok == (min <= value@.len() <= max),
{
    validator::ValidateLength::validate_length(value, Some(min), Some(max), None)
}

/// Checks a label name against the length rule.
pub fn validate_name(name: &String) -> (outcome: Result<(), ValidationError>)
    ensures
        outcome is Ok <==> name_length_ok(name@),
        outcome is Err ==> outcome->Err_0 == name_length_error(),
{
    if length_within(name, MIN_NAME_LEN, MAX_NAME_LEN) {
        Ok(())
    } else {
        Err(
            ValidationError {
                field: Field::LabelName,
                constraint: Constraint::Length { min: MIN_NAME_LEN, max: MAX_NAME_LEN },
            },
        )
    }
}

} // verus!
