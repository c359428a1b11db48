//! The label entity and its repository.

pub mod model;
pub mod repository;
pub mod validation;
