//! A fluent builder that assembles SQL statement strings (SELECT, INSERT,
//! UPDATE, DELETE) from chained calls describing columns, joins, filter
//! conditions and ordering. Every rendering function carries a contract
//! pinning the produced text to a mathematical function of the builder state.

pub mod db;
