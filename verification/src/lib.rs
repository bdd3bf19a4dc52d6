//! Decision logic of a vehicle data recorder.
pub mod channel_descriptor;
pub mod cli;
pub mod json;
pub mod mav;
pub mod recording;
pub mod service;
pub mod text;
pub mod text_map;
