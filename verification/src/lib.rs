//! Decision core of a screenshot journal: which foreground window is worth
//! recording, under which folder name, and whether the user has been active
//! since the last picture was taken.
//!
//! The library looks at nothing and saves nothing itself. Its driver hands it
//! what the operating system said, as plain values, and carries out what it
//! decides:
//!
//! - [`normalize`]: folder-safe names;
//! - [`rules`]: the settings and the rule table;
//! - [`geometry`]: the fullscreen test;
//! - [`classifier`]: from the facts about the foreground window to a capture
//!   target;
//! - [`activity`]: no second picture without new input;
//! - [`timestamp`] and [`paths`]: the name and the place of a picture;
//! - [`scheduler`]: the cycle of sleeping, looking, asking and capturing.

pub mod activity;
pub mod classifier;
pub mod geometry;
pub mod normalize;
pub mod paths;
pub mod rules;
pub mod scheduler;
pub mod timestamp;
