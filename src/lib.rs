//! Driver logic for an ultrasonic ranging module and an LED bar on GPIO lines.
//!
//! The library decides; the caller performs the pin and clock operations that
//! it asks for and reports back what happened.
pub mod ranging;
pub mod measure;
pub mod setup;
pub mod ledbar;
