//! Decision logic of an XFCE panel plugin for switching power profiles.
//!
//! The plugin talks to `org.freedesktop.UPower.PowerProfiles` over D-Bus and
//! shows the active profile as a panel icon with a popup slider. This crate
//! holds the parts of it that decide: which profile names a D-Bus reply
//! carries, what the background monitor reports to the panel at each step,
//! how the panel widget reacts to those reports, and which profile a slider
//! position selects.
//!
//! - [`text`]: character-level comparison of strings.
//! - [`dbus`]: D-Bus property dictionaries, the events sent to the panel, and
//!   the monitor that turns D-Bus replies into those events.
//! - [`ui`]: the panel widget's state and the profile icons.
//! - [`panel`]: how the panel applies a D-Bus event to its widget.

pub mod dbus;
pub mod panel;
pub mod text;
pub mod ui;
