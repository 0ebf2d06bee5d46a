//! An in-memory model of the Platform Window collaborator.
//!
//! The Platform Window owns the native tray icon and its popup menu.  The
//! core drives it through the small interface below: create entries and
//! separators at given indices, remove entries, set the icon and the
//! tooltip, shut down, and request that the native message loop stop.
//!
//! This model records exactly the state a conforming native layer would
//! hold — the menu entries keyed by index, the cosmetic settings, and the
//! shutdown/quit flags — so that every forwarding operation of the core has
//! an observable, provable effect.  Menu-entry removal is an optional
//! capability: a window built without it reports `NotImplementedError`,
//! as platforms lacking dynamic menu edits do.

use vstd::prelude::*;

use crate::SystrayError;
use std::collections::HashMap;

verus! {

broadcast use vstd::std_specs::hash::group_hash_axioms;

/// The diagnostic text a shut-down window reports for any further request.
pub open spec fn shut_down_message() -> Seq<char> {
    "window has been shut down"@
}

/// The native tray window, modelled as the state it is obliged to keep:
/// its menu entries (a label for an ordinary entry, `None` for a
/// separator), keyed by the dense menu index the core allocates.
pub struct Window {
    /// Menu entries by index; `None` marks a separator.
    pub entries: HashMap<u32, Option<String>>,
    /// The tooltip last set, if any.
    pub tooltip: Option<String>,
    /// The icon file path last set, if any.
    pub icon_file: Option<String>,
    /// The icon resource name last set, if any.
    pub icon_resource: Option<String>,
    /// Whether this platform supports removing a menu entry once added.
    pub removal_supported: bool,
    /// Whether the native resources have been released.
    pub shut_down: bool,
    /// Whether the native message loop has been asked to stop.
    pub quit_requested: bool,
}

impl Window {
    /// Create the native tray icon and menu, empty, with the given
    /// dynamic-removal capability.
    pub fn new(removal_supported: bool) -> (w: Window)
        ensures
            w.entries@ == Map::<u32, Option<String>>::empty(),
            w.tooltip is None,
            w.icon_file is None,
            w.icon_resource is None,
            w.removal_supported == removal_supported,
            !w.shut_down,
            !w.quit_requested,
    {
        Window {
            entries: HashMap::new(),
            tooltip: None,
            icon_file: None,
            icon_resource: None,
            removal_supported,
            shut_down: false,
            quit_requested: false,
        }
    }

    /// An `OsError` carrying the shut-down diagnostic.
    fn shut_down_error() -> (e: SystrayError)
        ensures
            e matches SystrayError::OsError(m) && m@ == shut_down_message(),
    {
        SystrayError::OsError(String::from_str("window has been shut down"))
    }

    /// Create a native menu entry with the given label at the given index.
    pub fn add_menu_entry(&mut self, index: u32, label: &String) -> (r: Result<(), SystrayError>)
        ensures
            old(self).shut_down ==> {
                &&& *final(self) == *old(self)
                &&& r matches Err(SystrayError::OsError(m)) && m@ == shut_down_message()
            },
            !old(self).shut_down ==> {
                &&& r is Ok
                &&& *final(self) == (Window {
                    entries: final(self).entries,
                    ..*old(self)
                })
                &&& final(self).entries@ == old(self).entries@.insert(index, Some(*label))
            },
    {
        if self.shut_down {
            return Err(Self::shut_down_error());
        }
        self.entries.insert(index, Some(label.clone()));
        Ok(())
    }

    /// Create a native separator row at the given index.
    pub fn add_menu_separator(&mut self, index: u32) -> (r: Result<(), SystrayError>)
        ensures
            old(self).shut_down ==> {
                &&& *final(self) == *old(self)
                &&& r matches Err(SystrayError::OsError(m)) && m@ == shut_down_message()
            },
            !old(self).shut_down ==> {
                &&& r is Ok
                &&& *final(self) == (Window {
                    entries: final(self).entries,
                    ..*old(self)
                })
                &&& final(self).entries@ == old(self).entries@.insert(index, None::<String>)
            },
    {
        if self.shut_down {
            return Err(Self::shut_down_error());
        }
        self.entries.insert(index, None);
        Ok(())
    }

    /// Delete the native menu entry at the given index.  An optional
    /// capability: platforms lacking dynamic menu edits report
    /// `NotImplementedError` and change nothing.
    pub fn remove_menu_entry(&mut self, index: u32) -> (r: Result<(), SystrayError>)
        ensures
            !old(self).removal_supported ==> {
                &&& *final(self) == *old(self)
                &&& r matches Err(e) && e is NotImplementedError
            },
            old(self).removal_supported && old(self).shut_down ==> {
                &&& *final(self) == *old(self)
                &&& r matches Err(SystrayError::OsError(m)) && m@ == shut_down_message()
            },
            old(self).removal_supported && !old(self).shut_down ==> {
                &&& r is Ok
                &&& *final(self) == (Window {
                    entries: final(self).entries,
                    ..*old(self)
                })
                &&& final(self).entries@ == old(self).entries@.remove(index)
            },
    {
        if !self.removal_supported {
            return Err(SystrayError::NotImplementedError);
        }
        if self.shut_down {
            return Err(Self::shut_down_error());
        }
        self.entries.remove(&index);
        Ok(())
    }

    /// Load the tray icon from the given file path.
    pub fn set_icon_from_file(&mut self, file: &String) -> (r: Result<(), SystrayError>)
        ensures
            old(self).shut_down ==> {
                &&& *final(self) == *old(self)
                &&& r matches Err(SystrayError::OsError(m)) && m@ == shut_down_message()
            },
            !old(self).shut_down ==> {
                &&& r is Ok
                &&& *final(self) == (Window {
                    icon_file: Some(*file),
                    ..*old(self)
                })
            },
    {
        if self.shut_down {
            return Err(Self::shut_down_error());
        }
        self.icon_file = Some(file.clone());
        Ok(())
    }

    /// Load the tray icon from the given named resource.
    pub fn set_icon_from_resource(&mut self, resource: &String) -> (r: Result<(), SystrayError>)
        ensures
            old(self).shut_down ==> {
                &&& *final(self) == *old(self)
                &&& r matches Err(SystrayError::OsError(m)) && m@ == shut_down_message()
            },
            !old(self).shut_down ==> {
                &&& r is Ok
                &&& *final(self) == (Window {
                    icon_resource: Some(*resource),
                    ..*old(self)
                })
            },
    {
        if self.shut_down {
            return Err(Self::shut_down_error());
        }
        self.icon_resource = Some(resource.clone());
        Ok(())
    }

    /// Set the tooltip shown over the tray icon.
    pub fn set_tooltip(&mut self, tooltip: &String) -> (r: Result<(), SystrayError>)
        ensures
            old(self).shut_down ==> {
                &&& *final(self) == *old(self)
                &&& r matches Err(SystrayError::OsError(m)) && m@ == shut_down_message()
            },
            !old(self).shut_down ==> {
                &&& r is Ok
                &&& *final(self) == (Window {
                    tooltip: Some(*tooltip),
                    ..*old(self)
                })
            },
    {
        if self.shut_down {
            return Err(Self::shut_down_error());
        }
        self.tooltip = Some(tooltip.clone());
        Ok(())
    }

    /// Release all native resources.  Safe to call more than once; never
    /// fails.
    pub fn shutdown(&mut self) -> (r: Result<(), SystrayError>)
        ensures
            r is Ok,
            *final(self) == (Window {
                entries: final(self).entries,
                shut_down: true,
                ..*old(self)
            }),
            final(self).entries@ == Map::<u32, Option<String>>::empty(),
    {
        self.entries = HashMap::new();
        self.shut_down = true;
        Ok(())
    }

    /// Ask the native message loop to stop.  Non-blocking, best-effort.
    pub fn quit(&mut self)
        ensures
            *final(self) == (Window {
                quit_requested: true,
                ..*old(self)
            }),
    {
        self.quit_requested = true;
    }
}

} // verus!
