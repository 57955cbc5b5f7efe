//! The names and handles by which hosts speak of windows, and who may change the GUI.

use vstd::prelude::*;

use crate::clap_abi::{CLAP_WINDOW_API_COCOA, CLAP_WINDOW_API_WIN32, CLAP_WINDOW_API_X11};
use crate::text;
use crate::wrac_clap_adapter::api::{ClapWindow, GuiApi};
use crate::wrac_clap_adapter::ffi::TextArgument;

verus! {

/// The name of a windowing system.
pub open spec fn api_name(api: GuiApi) -> Seq<char> {
    match api {
        GuiApi::Cocoa => CLAP_WINDOW_API_COCOA@,
        GuiApi::Win32 => CLAP_WINDOW_API_WIN32@,
        GuiApi::X11 => CLAP_WINDOW_API_X11@,
    }
}

/// The windowing system that a name stands for.
pub open spec fn api_named(name: Seq<char>) -> Option<GuiApi> {
    if name == CLAP_WINDOW_API_COCOA@ {
        Some(GuiApi::Cocoa)
    } else if name == CLAP_WINDOW_API_WIN32@ {
        Some(GuiApi::Win32)
    } else if name == CLAP_WINDOW_API_X11@ {
        Some(GuiApi::X11)
    } else {
        None
    }
}

/// The windowing system that a host names.
pub fn gui_api_from_name(name: TextArgument<'_>) -> (api: Option<GuiApi>)
    ensures
        api == match name {
            TextArgument::Text(name) => api_named(name@),
            _ => None,
        },
{
    match name {
        TextArgument::Text(name) => if text::same_text(name, CLAP_WINDOW_API_COCOA) {
            Some(GuiApi::Cocoa)
        } else if text::same_text(name, CLAP_WINDOW_API_WIN32) {
            Some(GuiApi::Win32)
        } else if text::same_text(name, CLAP_WINDOW_API_X11) {
            Some(GuiApi::X11)
        } else {
            None
        },
        _ => None,
    }
}

/// The name of a windowing system.
pub fn gui_api_name(api: GuiApi) -> (name: &'static str)
    ensures
        name@ == api_name(api),
{
    match api {
        GuiApi::Cocoa => CLAP_WINDOW_API_COCOA,
        GuiApi::Win32 => CLAP_WINDOW_API_WIN32,
        GuiApi::X11 => CLAP_WINDOW_API_X11,
    }
}

/// A windowing system is found again by its name.
pub proof fn names_tell_windowing_systems_apart(api: GuiApi)
    ensures
        api_named(api_name(api)) == Some(api),
{
    reveal_strlit("cocoa");
    reveal_strlit("win32");
    reveal_strlit("x11");
    assert(CLAP_WINDOW_API_COCOA@[0] != CLAP_WINDOW_API_WIN32@[0]);
    assert(CLAP_WINDOW_API_COCOA@.len() != CLAP_WINDOW_API_X11@.len());
    assert(CLAP_WINDOW_API_WIN32@.len() != CLAP_WINDOW_API_X11@.len());
}

/// The handles that a host passes with a window. Which of them counts follows from the windowing
/// system that the host names.
#[derive(Debug, Clone, Copy, PartialEq, Eq, Structural)]
pub struct WindowHandles {
    pub cocoa: usize,
    pub win32: isize,
    pub x11: u64,
}

/// The window that a host passes, where the host names a windowing system that the adapter knows
/// and the handle is not null.
pub open spec fn window_of(api: Option<GuiApi>, handles: WindowHandles) -> Option<ClapWindow> {
    let window = match api {
        None => None,
        Some(GuiApi::Cocoa) => Some(ClapWindow::Cocoa { ns_view: handles.cocoa }),
        Some(GuiApi::Win32) => Some(ClapWindow::Win32 { hwnd: handles.win32 }),
        Some(GuiApi::X11) => Some(ClapWindow::X11 { window: handles.x11 }),
    };
    match window {
        Some(window) => if window.is_valid() {
            Some(window)
        } else {
            None
        },
        None => None,
    }
}

/// The window that a host passes.
pub fn clap_window_to_rust(api: TextArgument<'_>, handles: WindowHandles) -> (window: Option<
    ClapWindow,
>)
    ensures
        window == match api {
            TextArgument::Text(name) => window_of(api_named(name@), handles),
            _ => None,
        },
{
    match gui_api_from_name(api) {
        None => None,
        Some(GuiApi::Cocoa) => ClapWindow::cocoa(handles.cocoa),
        Some(GuiApi::Win32) => ClapWindow::win32(handles.win32),
        Some(GuiApi::X11) => ClapWindow::x11(handles.x11),
    }
}

/// Whether a callback that changes the GUI is under way.
#[derive(Debug, Clone, Copy, PartialEq, Eq, Structural)]
pub struct GuiCallbackGuard {
    pub busy: bool,
}

impl GuiCallbackGuard {
    /// No callback is under way.
    pub fn new() -> (guard: Self)
        ensures
            !guard.busy,
    {
        GuiCallbackGuard { busy: false }
    }

    /// Lets a callback in that changes the GUI, unless another is under way: a second one is
    /// refused at once, since to wait for the first could be to wait for itself.
    pub fn try_enter(&mut self) -> (entered: bool)
        ensures
            entered == !old(self).busy,
            final(self).busy,
    {
        let entered = !self.busy;
        self.busy = true;
        entered
    }

    /// The callback that was let in is done.
    pub fn leave(&mut self)
        requires
            old(self).busy,
        ensures
            !final(self).busy,
    {
        self.busy = false;
    }
}

/// Hosts name each windowing system as CLAP does, and no other name stands for one.
pub proof fn windowing_systems_are_found_by_name(name: &str, api: Option<GuiApi>)
    requires
        call_ensures(gui_api_from_name, (TextArgument::Text(name),), api),
    ensures
        api == Some(GuiApi::Cocoa) <==> name@ == "cocoa"@,
        api == Some(GuiApi::Win32) <==> name@ == "win32"@,
        api == Some(GuiApi::X11) <==> name@ == "x11"@,
{
    reveal_strlit("cocoa");
    reveal_strlit("win32");
    reveal_strlit("x11");
    assert("cocoa"@[0] != "win32"@[0]);
    assert("cocoa"@.len() != "x11"@.len());
    assert("win32"@.len() != "x11"@.len());
}

/// A window is found by the handle of the windowing system that the host names, and by no
/// other, where it is not null.
pub proof fn windows_are_found_by_their_own_handle(
    name: TextArgument<'_>,
    handles: WindowHandles,
    window: Option<ClapWindow>,
)
    requires
        call_ensures(clap_window_to_rust, (name, handles), window),
    ensures
        window matches Some(ClapWindow::Cocoa { ns_view }) ==> ns_view == handles.cocoa && ns_view
            != 0 && name->Text_0@ == "cocoa"@,
        window matches Some(ClapWindow::Win32 { hwnd }) ==> hwnd == handles.win32 && hwnd != 0
            && name->Text_0@ == "win32"@,
        window matches Some(ClapWindow::X11 { window }) ==> window == handles.x11 && window != 0
            && name->Text_0@ == "x11"@,
        !(name is Text) ==> window is None,
        name is Text && name->Text_0@ == "cocoa"@ && handles.cocoa != 0 ==> window is Some,
        name is Text && name->Text_0@ == "win32"@ && handles.win32 != 0 ==> window is Some,
        name is Text && name->Text_0@ == "x11"@ && handles.x11 != 0 ==> window is Some,
{
    names_tell_windowing_systems_apart(GuiApi::Cocoa);
    names_tell_windowing_systems_apart(GuiApi::Win32);
    names_tell_windowing_systems_apart(GuiApi::X11);
}

/// Of two callbacks that want to change the GUI, the second is turned away until the first has
/// left; a callback that finds the GUI free is let in.
pub proof fn callbacks_change_the_gui_in_turn(
    fresh: GuiCallbackGuard,
    first: &mut GuiCallbackGuard,
    second: &mut GuiCallbackGuard,
    left: &mut GuiCallbackGuard,
    third: &mut GuiCallbackGuard,
    answers: (bool, bool, bool),
)
    requires
        call_ensures(GuiCallbackGuard::new, (), fresh),
        *first == fresh,
        call_ensures(GuiCallbackGuard::try_enter, (first,), answers.0),
        *second == *final(first),
        call_ensures(GuiCallbackGuard::try_enter, (second,), answers.1),
        *left == *final(second),
        call_ensures(GuiCallbackGuard::leave, (left,), ()),
        *third == *final(left),
        call_ensures(GuiCallbackGuard::try_enter, (third,), answers.2),
    ensures
        answers.0,
        !answers.1,
        answers.2,
{
}

} // verus!
