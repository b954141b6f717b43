//! A verified sweep-and-acquisition engine for a laser-diode current sweep
//! with spectral capture from an optical spectrum analyzer.
//!
//! The library holds the logic of the measurement procedure: the set-point
//! plan, fixed-point parsing and formatting of instrument text, CSV line
//! building, and the sweep controller as a state machine from events to
//! actions. All instrument and file I/O is performed by the caller, which
//! runs the controller loop: it performs each returned action and hands the
//! outcome back as an event.

pub mod controller;
pub mod plan;
pub mod scaled;
pub mod sink;
pub mod text;
