//! Units of length in three measurement systems.
//!
//! The crate holds the unit taxonomy (which system a unit belongs to, its
//! symbol, its neighbours on the ladder of its system) together with the
//! decisions that working with lengths needs: the route a magnitude takes
//! from one unit to another, the walk along a ladder that picks the most
//! readable unit, and the reading of a written length. Every function carries
//! a contract that Verus proves.
//!
//! Magnitudes are double-precision numbers, which verified code does not
//! hold. They are computed by the caller, who follows what these functions
//! decide. What the caller's arithmetic approximates is stated over the real
//! numbers in `exact_conversion` and `exact_normalization`, with the laws
//! that hold of it exactly.

pub mod conversion;
pub mod exact_conversion;
pub mod exact_normalization;
pub mod ladder;
pub mod normalize;
pub mod symbol;
pub mod text;
pub mod unit;

pub use conversion::{find_route, Step};
pub use normalize::{Walk, MAX_ROUNDS};
pub use text::{to_text, WrittenLength, LENGTH_PATTERN};
pub use unit::{AstronomicUnit, ImperialUnit, MetricUnit, Unit, UnitSystem};
