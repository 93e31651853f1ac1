//! The events the controller reacts to, and the visibility state they drive.

use vstd::prelude::*;

verus! {

use crate::geometry::LogicalRect;

/// The pointer button reported with a tray icon click.
#[derive(Clone, Copy, Debug, PartialEq, Eq, Structural)]
pub enum MouseButton {
    Left,
    Right,
    Other,
}

/// Whether the reported button was pressed or released.
#[derive(Clone, Copy, Debug, PartialEq, Eq, Structural)]
pub enum MouseButtonState {
    Up,
    Down,
}

/// A pointer event on the tray icon: which button, whether it went down or
/// up, and the icon's bounding rectangle at the time of the click.
#[derive(Clone, Copy, Debug, PartialEq, Eq, Structural)]
pub struct TrayClick {
    pub button: MouseButton,
    pub state: MouseButtonState,
    pub rect: LogicalRect,
}

/// The controller's notion of the window: concealed or on screen.
#[derive(Clone, Copy, Debug, PartialEq, Eq, Structural)]
pub enum Visibility {
    Hidden,
    Visible,
}

/// One event as the controller sees it: a tray pointer event, or the
/// window's focus changing to the carried value.
#[derive(Clone, Copy, Debug, PartialEq, Eq, Structural)]
pub enum ControllerEvent {
    Tray(TrayClick),
    Focus(bool),
}

/// Only a released left button toggles the popover; every other
/// button/state combination is ignored.
pub open spec fn qualifies(ev: TrayClick) -> bool {
    ev.button is Left && ev.state is Up
}

impl TrayClick {
    /// Decides whether this click is one that toggles the popover.
    pub fn is_toggle_click(&self) -> (b: bool)
        ensures
            b == qualifies(*self),
    {
        self.button == MouseButton::Left && self.state == MouseButtonState::Up
    }
}

} // verus!
