//! A platform-agnostic core for a system-tray (notification area) icon.
//!
//! The core owns menu-index allocation, the name/index registries, the
//! callback table and the blocking dispatch loop.  The native side — the
//! tray icon, the popup menu and the OS message thread — is represented by
//! the [`window::Window`] collaborator, which the core drives through the
//! interface contract it must satisfy: every menu or icon mutation is
//! forwarded to it, and every user click comes back as a [`SystrayEvent`]
//! carrying the menu index of the entry that was clicked.

use vstd::prelude::*;

pub mod app;
pub mod callback;
pub mod model;
pub mod window;

verus! {

/// An error reported by a tray operation.
#[derive(Clone, Debug)]
pub enum SystrayError {
    /// A failure reported by the native platform layer, carrying the
    /// platform-supplied diagnostic text.
    OsError(String),
    /// The requested capability is unsupported on the current platform.
    NotImplementedError,
    /// A condition the platform layer could not classify.
    UnknownError,
}

impl SystrayError {
    /// A human-readable description of the error.
    pub fn describe(&self) -> (r: String)
        ensures
            r@ == match self {
                SystrayError::OsError(m) => "OsError: "@ + m@,
                SystrayError::NotImplementedError => "Functionality is not implemented yet"@,
                SystrayError::UnknownError => "Unknown error occurrred"@,
            },
    {
        match self {
            SystrayError::OsError(m) => {
                let mut s = String::from_str("OsError: ");
                s.append(m.as_str());
                s
            },
            SystrayError::NotImplementedError => String::from_str(
                "Functionality is not implemented yet",
            ),
            SystrayError::UnknownError => String::from_str("Unknown error occurrred"),
        }
    }
}

/// One user interaction with the tray menu: the index of the clicked entry.
pub struct SystrayEvent {
    /// The menu index the platform layer reported for the click.
    pub menu_index: u32,
}

} // verus!
