//! Labels: named, uniquely identified tags, and the repository that creates
//! them in a relational store.
//!
//! The library holds everything that is decided on this side of the store:
//! the shape of a label, the rule its name must satisfy, the one statement a
//! creation sends, and what the caller receives for each answer of the store.
//! Sending the statement over a pooled connection is left to the caller.

pub mod label;
