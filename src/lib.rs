//! Telemetry core of a plant-monitoring device: sensor decoding, the
//! character-grid display model, the text that is rendered each cycle, and the
//! control loop that drives the sensors, the display and the serial log.
pub mod button;
pub mod control;
pub mod display;
pub mod reading;
pub mod render;
pub mod sensors;
