//! Query construction and result decoding for a vector-store index backed by
//! a columnar vector database table.
//!
//! The crate models the decision logic of the adapter: how declarative search
//! parameters (`SeizzyhParams`) are turned into an ordered sequence of
//! query-builder operations, and how loosely typed result rows are decoded
//! into scored, identified records with defensive defaults.

pub mod decode;
pub mod index;
pub mod query;
pub mod rows;
pub mod seizzyh;
