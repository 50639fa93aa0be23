//! Expands one hand-written binary-operator implementation into the family of
//! implementations that covers every mix of owned and borrowed operands.
//!
//! The expansion is computed on a plain model of the implementation's syntax,
//! so that every decision it takes is stated in a contract and proved; the
//! host language's parser is reached through the small trusted layer in
//! [`syntax`].

pub mod body;
pub mod catalog;
pub mod classify;
pub mod emit;
pub mod error;
pub mod form;
pub mod generator;
pub mod model;
pub mod render;
pub mod syntax;
