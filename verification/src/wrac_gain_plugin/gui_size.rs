//! How large the GUI of the plugin is, and in which form it opens.

use vstd::prelude::*;

use crate::wrac_clap_adapter::api::{GuiConfiguration, GuiSize, PluginError, PluginResult};
use crate::wrac_wxp_gui::layout::{clamp_size_with_limits, nearest_size, GuiSizeLimits};

verus! {

/// The size that the GUI opens with.
pub fn default_gui_size() -> (size: GuiSize)
    ensures
        size == (GuiSize { width: 320, height: 380 }),
{
    GuiSize { width: 320, height: 380 }
}

/// The smallest size that a host can give the GUI.
pub fn min_gui_size() -> (size: GuiSize)
    ensures
        size == (GuiSize { width: 320, height: 380 }),
{
    GuiSize { width: 320, height: 380 }
}

/// The largest size that a host can give the GUI.
pub fn max_gui_size() -> (size: GuiSize)
    ensures
        size == (GuiSize { width: 720, height: 720 }),
{
    GuiSize { width: 720, height: 720 }
}

/// The smallest and the largest size of the web view.
pub open spec fn view_limits() -> GuiSizeLimits {
    GuiSizeLimits {
        min: GuiSize { width: 320, height: 340 },
        max: GuiSize { width: 720, height: 720 },
    }
}

/// The size of the web view where a host asks for a size.
pub fn applied_view_size(requested: GuiSize) -> (size: GuiSize)
    ensures
        size == nearest_size(requested, view_limits()),
{
    let limits = GuiSizeLimits {
        min: GuiSize { width: 320, height: 340 },
        max: GuiSize { width: 720, height: 720 },
    };
    clamp_size_with_limits(requested, limits)
}

/// The web view can have every size that a host can give the GUI.
pub proof fn the_view_takes_every_size_of_the_gui(size: GuiSize)
    requires
        320 <= size.width <= 720,
        380 <= size.height <= 720,
    ensures
        nearest_size(size, view_limits()) == size,
{
}

/// Whether the GUI can open in a form: only inside a window of the host.
pub fn check_configuration(configuration: GuiConfiguration) -> (result: PluginResult<()>)
    ensures
        if configuration.is_floating {
            result matches Err(PluginError::Message(message)) && message@
                == "unsupported GUI configuration"@
        } else {
            result is Ok
        },
{
    if configuration.is_floating {
        Err(PluginError::Message("unsupported GUI configuration"))
    } else {
        Ok(())
    }
}

/// The GUI opens with the smallest size that a host can give it, and the web view takes every
/// size between the smallest and the largest as it is.
pub proof fn the_gui_opens_within_its_limits(
    opens: GuiSize,
    least: GuiSize,
    most: GuiSize,
    requested: GuiSize,
    applied: GuiSize,
)
    requires
        call_ensures(default_gui_size, (), opens),
        call_ensures(min_gui_size, (), least),
        call_ensures(max_gui_size, (), most),
        call_ensures(applied_view_size, (requested,), applied),
    ensures
        opens.width == 320 && opens.height == 380,
        least == opens,
        most.width == 720 && most.height == 720,
        320 <= applied.width <= 720 && 340 <= applied.height <= 720,
        320 <= requested.width <= 720 ==> applied.width == requested.width,
        340 <= requested.height <= 720 ==> applied.height == requested.height,
        requested.width < 320 ==> applied.width == 320,
        requested.width > 720 ==> applied.width == 720,
        requested.height < 340 ==> applied.height == 340,
        requested.height > 720 ==> applied.height == 720,
        least.width <= requested.width <= most.width && least.height <= requested.height
            <= most.height ==> applied == requested,
{
}

/// The GUI opens inside a window of the host and never in one of its own, whatever the windowing
/// system.
pub proof fn the_gui_never_floats(configuration: GuiConfiguration, result: PluginResult<()>)
    requires
        call_ensures(check_configuration, (configuration,), result),
    ensures
        result is Ok <==> !configuration.is_floating,
        result matches Err(error) ==> error is Message && error->Message_0@
            == "unsupported GUI configuration"@,
{
}

} // verus!
