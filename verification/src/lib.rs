//! Core engine for a multi-timezone day-window viewer.
//!
//! Given a base timezone and a calendar date, the library computes the base
//! day's window (midnight to end of day) as absolute instants, re-projects the
//! window into any number of tracked timezones with day-rollover flags, maps a
//! 96-step quarter-hour slider to 12-hour wall-clock labels, derives the
//! numeric offsets that align a daylight visualization, and keeps the ordered
//! collection of timezone entries consistent across additions, removals and
//! zone reassignments.

pub mod coord;
pub mod date;
pub mod progress;
pub mod slider;
pub mod timefmt;
pub mod window;
pub mod zones;

pub use coord::App;
pub use coord::ConfigSnapshot;
pub use coord::DisplayError;
pub use coord::Msg;
pub use coord::MsgUpdateType;
pub use coord::Rgba;
pub use coord::TimezoneEntry;
pub use coord::WindowDisplay;
pub use date::DateYmd;
