//! Verified decision logic of a Korean/English text-to-speech front end:
//! which voice a specifier names, whether a local model bundle is complete,
//! which configuration a model loads, the noise seed of each generated frame,
//! and the integer skeleton of playback-speed change.

pub mod bundle;
pub mod cli;
pub mod config;
pub mod flow_lm;
pub mod model;
pub mod path;
pub mod speed;
pub mod text;
pub mod voice;
