//! A minimal analytical query engine with a verified core.
//!
//! A caller builds a logical plan (scan, filter, projection), hands it to the
//! planner, which lowers it into a physical plan bound to concrete column
//! positions, and then executes the physical plan against a columnar data
//! source to obtain one result batch.

pub mod datasource;
pub mod datatypes;
pub mod error;
pub mod execution;
pub mod logical;
pub mod physical;
