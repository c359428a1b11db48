//! The label as it is stored, and the label that is yet to be stored.

use crate::label::validation::{name_length_error, name_length_ok, validate_name, ValidationError};
use time::OffsetDateTime;
use uuid::Uuid;
use vstd::prelude::*;

verus! {

/// `uuid::Uuid`, a 128-bit identifier. The library carries such values and
/// never looks inside them.
#[verifier::external_type_specification]
#[verifier::external_body]
pub struct ExUuid(uuid::Uuid);

/// `time::OffsetDateTime`, an instant with its offset from UTC. The library
/// carries such values and never looks inside them.
#[verifier::external_type_specification]
#[verifier::external_body]
pub struct ExOffsetDateTime(time::OffsetDateTime);

/// A label as the store holds it.
#[derive(Debug)]
pub struct Label {
    /// Assigned by the store; never chosen by a caller.
    pub id: i64,
    /// The public identifier, unique among all labels.
    pub label_id: Uuid,
    pub label_name: String,
    /// Set by the store when the row is inserted.
    pub created_at: OffsetDateTime,
    /// Set by the store when the row is inserted.
    pub updated_at: OffsetDateTime,
}

/// A label that has not been stored: it has no internal id and no timestamps.
#[derive(Debug)]
pub struct NewLabel {
    pub label_id: Uuid,
    pub label_name: String,
}

/// What a stored label is: its five attributes, the name as a sequence of
/// characters.
pub struct LabelView {
    pub id: int,
    pub label_id: Uuid,
    pub label_name: Seq<char>,
    pub created_at: OffsetDateTime,
    pub updated_at: OffsetDateTime,
}

/// What an unstored label is: a public identifier and a name.
pub struct NewLabelView {
    pub label_id: Uuid,
    pub label_name: Seq<char>,
}

impl View for Label {
    type V = LabelView;

    open spec fn view(&self) -> LabelView {
        LabelView {
            id: self.id as int,
            label_id: self.label_id,
            label_name: self.label_name@,
            created_at: self.created_at,
            updated_at: self.updated_at,
        }
    }
}

impl View for NewLabel {
    type V = NewLabelView;

    open spec fn view(&self) -> NewLabelView {
        NewLabelView { label_id: self.label_id, label_name: self.label_name@ }
    }
}

impl Clone for Label {
    fn clone(&self) -> (copy: Self)
        ensures
            copy@ == self@,
    {
        Label {
            id: self.id,
            label_id: self.label_id,
            label_name: self.label_name.clone(),
            created_at: self.created_at,
            updated_at: self.updated_at,
        }
    }
}

impl Clone for NewLabel {
    fn clone(&self) -> (copy: Self)
        ensures
            copy@ == self@,
    {
        NewLabel { label_id: self.label_id, label_name: self.label_name.clone() }
    }
}

impl NewLabelView {
    /// The name meets the length rule.
    pub open spec fn is_valid(self) -> bool {
        name_length_ok(self.label_name)
    }
}

/// `uuid::Uuid::new_v4`: an identifier drawn from the operating system's
/// random generator. Two calls may differ, so nothing is claimed of the value.
/// The call panics only if the system cannot supply random bytes.
#[verifier::external_body]
fn random_label_id() -> (label_id: Uuid) {
    Uuid::new_v4()
}

impl Label {
    /// The id the store assigned.
    pub fn internal_id(&self) -> (id: i64)
        ensures
            id == self.id,
    {
        self.id
    }
}

impl NewLabel {
    /// The name meets the length rule.
    pub open spec fn is_valid(&self) -> bool {
        self@.is_valid()
    }

    /// A label to be stored under `label_name`, with a freshly drawn random
    /// public identifier. The name is taken as it is; `validate` judges it.
    pub fn new(label_name: String) -> (label: Self)
        ensures
            label@.label_name == label_name@,
    {
        Self::with_id(random_label_id(), label_name)
    }

    /// A label to be stored under `label_name` with the public identifier
    /// `label_id`.
    pub fn with_id(label_id: Uuid, label_name: String) -> (label: Self)
        ensures
            label@ == (NewLabelView { label_id, label_name: label_name@ }),
    {
        NewLabel { label_id, label_name }
    }

    /// Accepts the label exactly when its name has between 1 and 255
    /// characters; otherwise names the field and the constraint it broke.
    pub fn validate(&self) -> (outcome: Result<(), ValidationError>)
        ensures
            outcome is Ok <==> self.is_valid(),
            outcome is Err ==> outcome->Err_0 == name_length_error(),
    {
        validate_name(&self.label_name)
    }
}

/// A label is valid exactly when its name has at least 1 and at most 255
/// characters. Its public identifier plays no part.
pub proof fn lemma_valid_iff_name_in_bounds(label: NewLabel)
    ensures
        label.is_valid() <==> 1 <= label@.label_name.len() <= 255,
{
}

/// Names need not be unique: two labels with the same name are both valid or
/// both invalid, whatever their public identifiers.
pub proof fn lemma_same_name_same_validity(first: NewLabel, second: NewLabel)
    requires
        first@.label_name == second@.label_name,
    ensures
        first.is_valid() == second.is_valid(),
{
}

} // verus!
