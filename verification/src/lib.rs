//! Units of measure: a closed set of base units, named units defined against
//! one of them, and the value that every unit resolves to.

pub mod base;
pub mod unit;
pub mod value;

pub use base::BaseUnit;
pub use unit::Unit;
pub use value::{Val, Value, MAGNITUDE_ONE};
