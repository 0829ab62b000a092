//! The window handle's capability surface and its builder.
//!
//! A window exposes plain-value state — title, inner size, cursor grabbed
//! or free, cursor visible or hidden. The host performs the actual effects;
//! where the host can refuse one (creating the window, grabbing the
//! cursor), its outcome is handed in as a plain value, the verified state
//! follows only an accepted change, and a refusal is surfaced as a typed
//! error rather than a fatal failure.

use vstd::prelude::*;

use crate::error::OsError;

verus! {

/// A window: its identifier and the state the host last confirmed.
#[derive(Clone, Debug, PartialEq, Eq)]
pub struct Window {
    pub id: u64,
    pub title: String,
    pub width: u32,
    pub height: u32,
    pub cursor_grabbed: bool,
    pub cursor_visible: bool,
}

/// Describes a window before it is created against a live event-loop
/// target.
#[derive(Clone, Debug, PartialEq, Eq)]
pub struct WindowBuilder {
    pub title: String,
    pub width: u32,
    pub height: u32,
}

impl WindowBuilder {
    /// An untitled window description of the default inner size.
    pub fn new() -> (b: WindowBuilder)
        ensures
            b.title@ == Seq::<char>::empty(),
            b.width == 800,
            b.height == 600,
    {
        WindowBuilder { title: String::new(), width: 800, height: 600 }
    }

    /// The same description with this title.
    pub fn with_title(self, title: String) -> (b: WindowBuilder)
        ensures
            b == (WindowBuilder { title, ..self }),
    {
        WindowBuilder { title, ..self }
    }

    /// The same description with this inner size.
    pub fn with_inner_size(self, width: u32, height: u32) -> (b: WindowBuilder)
        ensures
            b == (WindowBuilder { width, height, ..self }),
    {
        WindowBuilder { width, height, ..self }
    }

    /// Create the described window. The host reports whether its window
    /// system could create one; a refusal creates nothing and is surfaced
    /// as a typed error.
    pub fn build(self, id: u64, host_created: bool) -> (r: Result<Window, OsError>)
        ensures
            host_created ==> r == Ok::<Window, OsError>(
                Window {
                    id,
                    title: self.title,
                    width: self.width,
                    height: self.height,
                    cursor_grabbed: false,
                    cursor_visible: true,
                },
            ),
            !host_created ==> r == Err::<Window, OsError>(OsError::WindowSystemUnavailable),
    {
        if host_created {
            Ok(
                Window {
                    id,
                    title: self.title,
                    width: self.width,
                    height: self.height,
                    cursor_grabbed: false,
                    cursor_visible: true,
                },
            )
        } else {
            Err(OsError::WindowSystemUnavailable)
        }
    }
}

impl Window {
    /// A fresh untitled window handle: default size, cursor free and
    /// visible.
    pub fn new(id: u64) -> (w: Window)
        ensures
            w.id == id,
            w.title@ == Seq::<char>::empty(),
            w.width == 800,
            w.height == 600,
            !w.cursor_grabbed,
            w.cursor_visible,
    {
        Window {
            id,
            title: String::new(),
            width: 800,
            height: 600,
            cursor_grabbed: false,
            cursor_visible: true,
        }
    }

    /// The inner size, in physical pixels.
    pub fn inner_size(&self) -> (s: (u32, u32))
        ensures
            s.0 == self.width,
            s.1 == self.height,
    {
        (self.width, self.height)
    }

    /// Retitle the window. The host never refuses this change.
    pub fn set_title(&mut self, title: String)
        ensures
            *final(self) == (Window { title, ..*old(self) }),
    {
        self.title = title;
    }

    /// Grab or release the cursor. The host reports whether it accepted the
    /// change (it refuses one when, e.g., the window lost focus); a denied
    /// change leaves the window untouched and surfaces a typed error.
    pub fn set_cursor_grab(&mut self, grab: bool, host_accepted: bool) -> (r: Result<(), OsError>)
        ensures
            host_accepted ==> r is Ok && *final(self) == (Window {
                cursor_grabbed: grab,
                ..*old(self)
            }),
            !host_accepted ==> r == Err::<(), OsError>(OsError::CursorGrabDenied) && *final(self)
                == *old(self),
    {
        if host_accepted {
            self.cursor_grabbed = grab;
            Ok(())
        } else {
            Err(OsError::CursorGrabDenied)
        }
    }

    /// Show or hide the cursor. The host never refuses this change.
    pub fn set_cursor_visible(&mut self, visible: bool)
        ensures
            *final(self) == (Window { cursor_visible: visible, ..*old(self) }),
    {
        self.cursor_visible = visible;
    }
}

} // verus!
