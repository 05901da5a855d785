//! How the popup slider reacts to pointer and keyboard input.
//!
//! While the popup menu is open, the menu item that holds the slider gets
//! the pointer and key events. A press of the primary button moves the
//! slider to the pointer and starts a drag; pointer motion moves it only
//! while that drag lasts; releasing the primary button ends the drag. The
//! arrow keys move the slider one step down (Left, Down) or up (Right, Up);
//! other keys are left to the menu.

use vstd::prelude::*;

verus! {

/// The primary (usually left) pointer button.
pub const PRIMARY_BUTTON: u32 = 1;

/// Whether a drag is under way after `button` was pressed.
pub open spec fn dragging_after_press(dragging: bool, button: u32) -> bool {
    dragging || button == PRIMARY_BUTTON
}

/// Whether a drag is under way after `button` was released.
pub open spec fn dragging_after_release(dragging: bool, button: u32) -> bool {
    dragging && button != PRIMARY_BUTTON
}

/// Whether the primary button is held down over the slider's menu item.
pub struct SliderDrag {
    dragging: bool,
}

impl View for SliderDrag {
    /// Whether a drag is under way.
    type V = bool;

    closed spec fn view(&self) -> bool {
        self.dragging
    }
}

impl SliderDrag {
    /// No drag under way.
    pub fn new() -> (drag: Self)
        ensures
            !drag@,
    {
        SliderDrag { dragging: false }
    }

    /// Whether a drag is under way.
    pub fn is_dragging(&self) -> (dragging: bool)
        ensures
            dragging == self@,
    {
        self.dragging
    }

    /// A pointer button was pressed over the item. Returns whether the slider
    /// moves to the pointer: only for the primary button, which also starts
    /// a drag.
    pub fn press(&mut self, button: u32) -> (follow: bool)
        ensures
            follow == (button == PRIMARY_BUTTON),
            final(self)@ == dragging_after_press(old(self)@, button),
    {
        if button == PRIMARY_BUTTON {
            self.dragging = true;
            true
        } else {
            false
        }
    }

    /// A pointer button was released; releasing the primary button ends the
    /// drag.
    pub fn release(&mut self, button: u32)
        ensures
            final(self)@ == dragging_after_release(old(self)@, button),
    {
        if button == PRIMARY_BUTTON {
            self.dragging = false;
        }
    }

    /// The pointer moved over the item. Returns whether the slider moves to
    /// the pointer: only during a drag.
    pub fn motion(&self) -> (follow: bool)
        ensures
            follow == self@,
    {
        self.dragging
    }
}

/// Pointer motion drags the slider only between a press of the primary
/// button and its release: after a primary press motion follows the pointer,
/// after a primary release it does not, and other buttons change neither.
pub proof fn law_motion_follows_only_during_drag(dragging: bool, button: u32)
    ensures
        dragging_after_press(dragging, PRIMARY_BUTTON),
        !dragging_after_release(dragging, PRIMARY_BUTTON),
        button != PRIMARY_BUTTON ==> dragging_after_press(dragging, button) == dragging,
        button != PRIMARY_BUTTON ==> dragging_after_release(dragging, button) == dragging,
{
}

/// A key pressed while the popup is open, as far as the slider cares.
#[derive(Clone, Copy, Debug, PartialEq, Eq, Structural)]
pub enum SliderKey {
    Left,
    Right,
    Up,
    Down,
    /// Any other key; the menu handles it.
    Other,
}

/// How many steps a key moves the slider: one down for Left and Down, one
/// up for Right and Up, and none (the key goes on to the menu) otherwise.
pub open spec fn key_steps(key: SliderKey) -> Option<int> {
    match key {
        SliderKey::Left | SliderKey::Down => Some(-1),
        SliderKey::Right | SliderKey::Up => Some(1),
        SliderKey::Other => None,
    }
}

/// How many steps `key` moves the slider, or `None` when the key is not
/// the slider's. The caller adds the steps to the slider's value and keeps
/// the result within the slider's range.
pub fn key_delta(key: SliderKey) -> (delta: Option<i8>)
    ensures
        match delta {
            Some(d) => key_steps(key) == Some(d as int),
            None => key_steps(key) is None,
        },
{
    match key {
        SliderKey::Left | SliderKey::Down => Some(-1),
        SliderKey::Right | SliderKey::Up => Some(1),
        SliderKey::Other => None,
    }
}

} // verus!
