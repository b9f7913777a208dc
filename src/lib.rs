//! Coercions for fields whose values arrive either as text or as numbers.

pub mod coerce;
pub mod decimal;

pub use coerce::{
    deserialize_number_from_string, deserialize_string_from_number, parse_outcome,
    structural_mismatch, Classified, CoerceError, Shape,
};
pub use decimal::decimal_string;
