use labels::label::model::NewLabel;
use labels::label::validation::{
    validate_name, Constraint, Field, ValidationError, MAX_NAME_LEN, MIN_NAME_LEN,
};
use uuid::Uuid;

fn name_of(len: usize, c: char) -> String {
    std::iter::repeat(c).take(len).collect()
}

fn expected_error() -> ValidationError {
    ValidationError { field: Field::LabelName, constraint: Constraint::Length { min: 1, max: 255 } }
}

#[test]
fn bounds_are_one_and_two_hundred_fifty_five() {
    assert_eq!(MIN_NAME_LEN, 1);
    assert_eq!(MAX_NAME_LEN, 255);
}

#[test]
fn empty_name_is_rejected() {
    assert_eq!(validate_name(&String::new()), Err(expected_error()));
}

#[test]
fn one_character_is_accepted() {
    assert_eq!(validate_name(&name_of(1, 'a')), Ok(()));
}

#[test]
fn two_hundred_fifty_five_characters_are_accepted() {
    assert_eq!(validate_name(&name_of(255, 'a')), Ok(()));
}

#[test]
fn two_hundred_fifty_six_characters_are_rejected() {
    assert_eq!(validate_name(&name_of(256, 'a')), Err(expected_error()));
}

#[test]
fn every_length_in_bounds_is_accepted() {
    for len in 1..=255usize {
        assert_eq!(validate_name(&name_of(len, 'x')), Ok(()), "length {}", len);
    }
}

#[test]
fn lengths_above_the_bound_are_rejected() {
    for len in [256usize, 257, 300, 1000, 70_000] {
        assert_eq!(validate_name(&name_of(len, 'x')), Err(expected_error()), "length {}", len);
    }
}

#[test]
fn length_counts_characters_not_bytes() {
    // 255 two-byte characters: 510 bytes, still within bounds.
    let wide = name_of(255, 'é');
    assert_eq!(wide.len(), 510);
    assert_eq!(validate_name(&wide), Ok(()));
    // 256 of them: out of bounds.
    assert_eq!(validate_name(&name_of(256, 'é')), Err(expected_error()));
    // 64 four-byte characters: 256 bytes but only 64 characters.
    let emoji = name_of(64, '🏷');
    assert_eq!(emoji.len(), 256);
    assert_eq!(validate_name(&emoji), Ok(()));
}

#[test]
fn error_identifies_the_name_field_and_the_length_constraint() {
    let error = validate_name(&String::new()).unwrap_err();
    assert_eq!(error.field, Field::LabelName);
    assert_eq!(error.constraint, Constraint::Length { min: 1, max: 255 });
}

#[test]
fn new_label_with_valid_name_validates() {
    for len in [1usize, 2, 6, 100, 254, 255] {
        let label = NewLabel::new(name_of(len, 'n'));
        assert_eq!(label.validate(), Ok(()), "length {}", len);
    }
}

#[test]
fn new_label_with_empty_name_is_rejected() {
    let label = NewLabel::new(String::from(""));
    let error = label.validate().unwrap_err();
    assert_eq!(error.field, Field::LabelName);
    assert_eq!(error, expected_error());
}

#[test]
fn new_label_with_256_characters_is_rejected() {
    let label = NewLabel::new(name_of(256, 'z'));
    let error = label.validate().unwrap_err();
    assert_eq!(error.field, Field::LabelName);
    assert_eq!(error, expected_error());
}

#[test]
fn validity_ignores_the_identifier() {
    let first = NewLabel::with_id(Uuid::from_u128(1), String::from("shared"));
    let second = NewLabel::with_id(Uuid::from_u128(2), String::from("shared"));
    assert_eq!(first.validate(), Ok(()));
    assert_eq!(second.validate(), Ok(()));
    let first = NewLabel::with_id(Uuid::from_u128(1), String::new());
    let second = NewLabel::with_id(Uuid::from_u128(2), String::new());
    assert_eq!(first.validate(), second.validate());
    assert!(first.validate().is_err());
}
