//! Platform-neutral core of a windowing and event-abstraction library.
//!
//! The crate models the unified event-loop control-flow state machine and
//! its event taxonomy, the keyboard-accelerator grammar, and the menu /
//! system-tray translation layer that turns a platform-neutral menu
//! description into an ordered plan of native menu items. The host-facing
//! side (status-bar objects, native menus, the OS run loop) consumes the
//! plans produced here; it lives outside this crate.

pub mod accelerator;
pub mod error;
pub mod event;
pub mod event_loop;
pub mod menu;
pub mod system_tray;
pub mod window;
