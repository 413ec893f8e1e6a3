//! Verified core of a ClickHouse dictionary and function integration for DataFusion.

pub mod aggregates;
pub mod arrow;
pub mod context;
pub mod dictget;
pub mod dictionary;
pub mod federation;
pub mod laws;
pub mod names;
pub mod signature;
pub mod text;
