//! Schema migrations for the relational store of a directory service:
//! the table catalog, the schema version, the deterministic identifier
//! used to backfill old rows, the decisions of the migration step, and a
//! model of the store over which the step's laws are proved.

pub mod identifier;
pub mod migration;
pub mod orchestrator;
pub mod schema;
pub mod store_model;
