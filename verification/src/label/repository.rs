//! The repository: what is sent to the store to create a label, and what the
//! caller receives for the store's answer.
//!
//! Creating a label is one round trip. `LabelRepository::create` decides what
//! is sent, the caller sends it over a connection of the pool and awaits the
//! answer, and `LabelRepository::complete` decides what the answer means.

use crate::label::model::{Label, LabelView, NewLabel, NewLabelView};
use crate::label::validation::{name_length_error, name_length_ok, ValidationError};
use time::OffsetDateTime;
use uuid::Uuid;
use vstd::prelude::*;

verus! {

/// `sqlx::Error`, every way a call to the store can fail. The library hands
/// such a value on without looking inside it.
#[verifier::external_type_specification]
#[verifier::external_body]
pub struct ExStoreError(sqlx::Error);

/// The statement that inserts one label and returns the stored row. Its two
/// parameters are the public identifier and the name, in this order; the
/// store supplies the internal id and both timestamps.
pub const INSERT_LABEL: &'static str =
    "INSERT INTO labels (label_id, label_name) VALUES ($1, $2) RETURNING id, label_id, label_name, created_at, updated_at";

/// One insert, ready to be sent: the statement's two parameters. A value of
/// this type always carries a name that meets the length rule.
#[derive(Debug)]
pub struct InsertLabel {
    label_id: Uuid,
    label_name: String,
}

impl View for InsertLabel {
    type V = NewLabelView;

    closed spec fn view(&self) -> NewLabelView {
        NewLabelView { label_id: self.label_id, label_name: self.label_name@ }
    }
}

impl InsertLabel {
    #[verifier::type_invariant]
    spec fn name_is_valid(self) -> bool {
        name_length_ok(self.label_name@)
    }

    /// The text of the statement.
    pub fn statement(&self) -> (text: &'static str)
        ensures
            text@ == INSERT_LABEL@,
    {
        INSERT_LABEL
    }

    /// The first parameter: the public identifier.
    pub fn label_id(&self) -> (label_id: Uuid)
        ensures
            label_id == self@.label_id,
    {
        self.label_id
    }

    /// The second parameter: the name, which meets the length rule.
    pub fn label_name(&self) -> (label_name: &String)
        ensures
            label_name@ == self@.label_name,
            name_length_ok(label_name@),
    {
        proof {
            use_type_invariant(self);
        }
        &self.label_name
    }
}

/// The row that the store returns for an accepted insert: the columns of the
/// statement's `RETURNING` clause.
#[derive(Debug)]
pub struct LabelRow {
    pub id: i64,
    pub label_id: Uuid,
    pub label_name: String,
    pub created_at: OffsetDateTime,
    pub updated_at: OffsetDateTime,
}

impl View for LabelRow {
    type V = LabelView;

    open spec fn view(&self) -> LabelView {
        LabelView {
            id: self.id as int,
            label_id: self.label_id,
            label_name: self.label_name@,
            created_at: self.created_at,
            updated_at: self.updated_at,
        }
    }
}

/// Access to stored labels. The repository holds the connection pool it was
/// given, of whatever type `P` the caller's driver provides, and keeps no
/// label after a call returns.
pub struct LabelRepository<P> {
    pool: P,
}

impl<P> LabelRepository<P> {
    /// The pool this repository was made with.
    pub closed spec fn pool_handle(&self) -> P {
        self.pool
    }

    /// A repository over `pool`.
    pub fn new(pool: P) -> (repository: Self)
        ensures
            repository.pool_handle() == pool,
    {
        LabelRepository { pool }
    }

    /// The pool over whose connections the caller sends what `create` returns.
    pub fn pool(&self) -> (pool: &P)
        ensures
            *pool == self.pool_handle(),
    {
        &self.pool
    }

    /// The insert that creates `new_label`: its public identifier and its
    /// name, unchanged. The caller must have validated the label; the name
    /// is not validated again here.
    pub fn create(&self, new_label: NewLabel) -> (insert: InsertLabel)
        requires
            new_label.is_valid(),
        ensures
            insert@ == new_label@,
    {
        InsertLabel { label_id: new_label.label_id, label_name: new_label.label_name }
    }

    /// Validates `new_label` and, only if it passes, prepares its insert. An
    /// invalid label is answered with the validation error and with nothing
    /// that could be sent to the store.
    pub fn validate_and_create(&self, new_label: NewLabel) -> (outcome: Result<InsertLabel, ValidationError>)
        ensures
            outcome is Ok <==> new_label.is_valid(),
            outcome is Ok ==> outcome->Ok_0@ == new_label@,
            outcome is Err ==> outcome->Err_0 == name_length_error(),
    {
        match new_label.validate() {
            Ok(()) => Ok(self.create(new_label)),
            Err(error) => Err(error),
        }
    }

    /// What `create` yields to its caller once the store has answered: the
    /// returned row as a label, attribute for attribute, or the store's error
    /// as it came.
    pub fn complete(&self, answer: Result<LabelRow, sqlx::Error>) -> (outcome: Result<Label, sqlx::Error>)
        ensures
            answer is Ok ==> outcome is Ok && outcome->Ok_0@ == answer->Ok_0@,
            answer is Err ==> outcome is Err && outcome->Err_0 == answer->Err_0,
    {
        match answer {
            Ok(row) => Ok(
                Label {
                    id: row.id,
                    label_id: row.label_id,
                    label_name: row.label_name,
                    created_at: row.created_at,
                    updated_at: row.updated_at,
                },
            ),
            Err(error) => Err(error),
        }
    }
}

} // verus!
