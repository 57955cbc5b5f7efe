//! The host window that a GUI is attached to.

use vstd::prelude::*;

use crate::wrac_clap_adapter::api::{ClapWindow, PluginError, PluginResult};

verus! {

/// The parent window of a GUI session, kept by the address or number of its native handle.
#[derive(Debug, Clone, Copy, PartialEq, Eq, Structural)]
pub enum StoredParentWindow {
    Cocoa { ns_view: usize },
    Win32 { hwnd: isize },
    X11 { window: u64 },
}

/// A parent window in the form that a GUI toolkit takes. No handle is null.
#[derive(Debug, Clone, Copy, PartialEq, Eq, Structural)]
pub enum ParentWindowHandle {
    AppKit { ns_view: usize },
    Win32 { hwnd: isize },
    Xcb { window: u32 },
}

impl StoredParentWindow {
    /// The window that the host handed over.
    pub open spec fn stored(window: ClapWindow) -> Self {
        match window {
            ClapWindow::Cocoa { ns_view } => StoredParentWindow::Cocoa { ns_view },
            ClapWindow::Win32 { hwnd } => StoredParentWindow::Win32 { hwnd },
            ClapWindow::X11 { window } => StoredParentWindow::X11 { window },
        }
    }

    /// The form that a toolkit takes: a handle that is not null, and for X11 a number that
    /// fits in 32 bits.
    pub open spec fn toolkit_form(self) -> Option<ParentWindowHandle> {
        match self {
            StoredParentWindow::Cocoa { ns_view } => if ns_view != 0 {
                Some(ParentWindowHandle::AppKit { ns_view })
            } else {
                None
            },
            StoredParentWindow::Win32 { hwnd } => if hwnd != 0 {
                Some(ParentWindowHandle::Win32 { hwnd })
            } else {
                None
            },
            StoredParentWindow::X11 { window } => if 0 < window <= u32::MAX {
                Some(ParentWindowHandle::Xcb { window: window as u32 })
            } else {
                None
            },
        }
    }

    /// Keeps a window that the host handed over.
    pub fn from_clap_window(window: ClapWindow) -> (stored: Self)
        ensures
            stored == StoredParentWindow::stored(window),
    {
        match window {
            ClapWindow::Cocoa { ns_view } => StoredParentWindow::Cocoa { ns_view },
            ClapWindow::Win32 { hwnd } => StoredParentWindow::Win32 { hwnd },
            ClapWindow::X11 { window } => StoredParentWindow::X11 { window },
        }
    }

    /// The form that a toolkit takes.
    pub fn to_parent_window_handle(self) -> (result: PluginResult<ParentWindowHandle>)
        ensures
            match self.toolkit_form() {
                Some(handle) => result == Ok::<ParentWindowHandle, PluginError>(handle),
                None => result matches Err(error) && error is InvalidState,
            },
    {
        match self {
            StoredParentWindow::Cocoa { ns_view } => if ns_view != 0 {
                Ok(ParentWindowHandle::AppKit { ns_view })
            } else {
                Err(PluginError::InvalidState)
            },
            StoredParentWindow::Win32 { hwnd } => if hwnd != 0 {
                Ok(ParentWindowHandle::Win32 { hwnd })
            } else {
                Err(PluginError::InvalidState)
            },
            StoredParentWindow::X11 { window } => if 0 < window && window <= u32::MAX as u64 {
                Ok(ParentWindowHandle::Xcb { window: window as u32 })
            } else {
                Err(PluginError::InvalidState)
            },
        }
    }
}

/// A window that a host hands over reaches the toolkit with the same handle, under the toolkit of
/// its own windowing system. A null handle does not, nor does a number of X11 beyond 32 bits.
pub proof fn windows_keep_their_handle(
    window: ClapWindow,
    stored: StoredParentWindow,
    result: PluginResult<ParentWindowHandle>,
)
    requires
        call_ensures(StoredParentWindow::from_clap_window, (window,), stored),
        call_ensures(StoredParentWindow::to_parent_window_handle, (stored,), result),
    ensures
        window matches ClapWindow::Cocoa { ns_view } ==> {
            &&& ns_view != 0 ==> (result matches Ok(ParentWindowHandle::AppKit { ns_view: handle })
                && handle == ns_view)
            &&& ns_view == 0 ==> result is Err
        },
        window matches ClapWindow::Win32 { hwnd } ==> {
            &&& hwnd != 0 ==> (result matches Ok(ParentWindowHandle::Win32 { hwnd: handle })
                && handle == hwnd)
            &&& hwnd == 0 ==> result is Err
        },
        window matches ClapWindow::X11 { window: number } ==> {
            &&& 0 < number <= 0xffff_ffff ==> (result matches Ok(
                ParentWindowHandle::Xcb { window: handle },
            ) && handle == number)
            &&& number == 0 || number > 0xffff_ffff ==> result is Err
        },
        result matches Err(error) ==> error is InvalidState,
{
}

} // verus!
