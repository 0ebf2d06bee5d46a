//! Menu-entry callbacks.
//!
//! A callback is the action a menu entry performs when the user clicks
//! it.  Callbacks are plain action values that the dispatch loop
//! interprets with exclusive access to the owning [`crate::app::Application`],
//! so an action may itself add or remove menu entries or request that the
//! message loop stop — the self-modifying dispatch the tray menu needs.

use vstd::prelude::*;

verus! {

/// The action performed when the menu entry owning it is clicked.  The
/// dispatch loop interprets the action with exclusive access to the
/// application, so an action may mutate the menu it was dispatched from.
pub enum Callback {
    /// Do nothing.
    Nop,
    /// Ask the native message loop to stop.
    Quit,
    /// Add a new menu entry with the given label, performing the given
    /// action when clicked.  Skipped when no further index can be
    /// allocated or the window is shut down.
    AddItem(String, Box<Callback>),
    /// Add a separator row to the menu.
    AddSeparator,
    /// Remove the menu entry with the given label, if present.
    RemoveItem(String),
    /// Set the tooltip shown over the tray icon.
    SetTooltip(String),
}

impl Clone for Callback {
    /// Cloning a callback yields an equal action.
    fn clone(&self) -> (r: Self)
        ensures
            r == *self,
        decreases *self,
    {
        match self {
            Callback::Nop => Callback::Nop,
            Callback::Quit => Callback::Quit,
            Callback::AddItem(name, inner) => Callback::AddItem(
                name.clone(),
                Box::new((**inner).clone()),
            ),
            Callback::AddSeparator => Callback::AddSeparator,
            Callback::RemoveItem(name) => Callback::RemoveItem(name.clone()),
            Callback::SetTooltip(text) => Callback::SetTooltip(text.clone()),
        }
    }
}

/// The action a name-aware dispatch loop performs after a menu entry's own
/// callback has returned.  It receives the display name of the entry the
/// event was dispatched to.
pub enum NamedCallback {
    /// Do nothing with the name.
    Nop,
    /// Set the tray tooltip to the clicked entry's display name.
    SetTooltipToName,
    /// Remove the clicked entry, looked up by its display name.
    RemoveNamed,
    /// Run the given action, ignoring the name.
    Run(Callback),
}

} // verus!
