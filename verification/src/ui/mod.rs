//! The panel widget: its state, the icons it shows and how the popup
//! slider reacts to pointer and keyboard input.

pub mod input;
pub mod slider;
