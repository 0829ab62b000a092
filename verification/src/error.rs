//! The typed error surfaced by host-facing operations.

use vstd::prelude::*;
use vstd::string::StringExecFns;

verus! {

/// Initialization-time and steady-state failures of the host subsystems.
///
/// Initialization of a tray or window fails with a typed, recoverable error
/// rather than a silent no-op or an abort; steady-state failures (a denied
/// cursor grab) are likewise surfaced as a typed result.
#[derive(Clone, Copy, Debug, PartialEq, Eq, Structural)]
pub enum OsError {
    /// The host status-bar subsystem was unavailable at initialization.
    StatusBarUnavailable,
    /// The host could not construct an image from the supplied icon bytes.
    ImageConstructionFailed,
    /// Two custom menu items in one menu description carry the same id.
    DuplicateMenuItemId,
    /// The host refused to change the cursor grab (e.g. the window lost focus).
    CursorGrabDenied,
    /// The host window system could not create a window.
    WindowSystemUnavailable,
}

impl OsError {
    /// A human-readable description of the error.
    pub fn message(&self) -> (m: String)
        ensures
            *self == OsError::StatusBarUnavailable ==> m@ == "the host status bar is unavailable"@,
            *self == OsError::ImageConstructionFailed ==> m@
                == "the host could not build an image from the icon bytes"@,
            *self == OsError::DuplicateMenuItemId ==> m@
                == "two custom menu items share one id"@,
            *self == OsError::CursorGrabDenied ==> m@ == "the host denied the cursor grab"@,
            *self == OsError::WindowSystemUnavailable ==> m@
                == "the host window system could not create a window"@,
    {
        match self {
            OsError::StatusBarUnavailable => String::from_str("the host status bar is unavailable"),
            OsError::ImageConstructionFailed => String::from_str(
                "the host could not build an image from the icon bytes",
            ),
            OsError::DuplicateMenuItemId => String::from_str("two custom menu items share one id"),
            OsError::CursorGrabDenied => String::from_str("the host denied the cursor grab"),
            OsError::WindowSystemUnavailable => String::from_str(
                "the host window system could not create a window",
            ),
        }
    }
}

} // verus!
