//! A verified controller for a menu-bar ("tray") popover window.
//!
//! The library decides, on each tray or focus event, whether the single
//! managed window should be shown, concealed, or repositioned, and where
//! exactly to place it on screen. It owns no window itself: callers read a
//! snapshot of the window (visibility, scale factor) from the host toolkit,
//! hand it to the controller together with the event, and carry out the
//! returned commands in order. All coordinates are plain integers; a display
//! scale factor is carried in thousandths, so the placement arithmetic is
//! exact and fully verified.

pub mod commands;
pub mod controller;
pub mod events;
pub mod geometry;
pub mod machine;
