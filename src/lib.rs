//! Conversion of scalar physical quantities between units of three families:
//! angles (degrees-minutes-seconds, hours-minutes-seconds, radians), lengths
//! (metric, imperial and astronomical) and temperatures (Celsius, Fahrenheit,
//! Kelvin).
//!
//! Magnitudes are fixed-point numbers: an `i128` that counts steps of
//! `1 / rule::SCALE` of the quantity's unit. Each family has a closed unit enum, a
//! table of direct conversion rules keyed by source and target unit, one quantity
//! type per unit, a sum type over them, a factory and a converter. Pairs without
//! a rule fail with `ConversionError::UnsupportedConversion`; nothing is routed through a
//! third unit.
pub mod angular;
pub mod distance;
pub mod rule;
pub mod temperature;
pub mod traits;
