//! The size that the host and the GUI have agreed on.

use vstd::prelude::*;

use crate::wrac_clap_adapter::api::{
    GuiApi, GuiConfiguration, GuiResizeHints, GuiSize, PluginError, PluginResult,
};

verus! {

/// The smallest and the largest size of a GUI.
#[derive(Debug, Clone, Copy, PartialEq, Eq, Structural)]
pub struct GuiSizeLimits {
    pub min: GuiSize,
    pub max: GuiSize,
}

impl GuiSizeLimits {
    /// Whether the limits leave room for a size.
    pub open spec fn are_ordered(self) -> bool {
        self.min.width <= self.max.width && self.min.height <= self.max.height
    }

    /// Whether `size` lies within the limits.
    pub open spec fn allow_size(self, size: GuiSize) -> bool {
        self.min.width <= size.width <= self.max.width && self.min.height <= size.height
            <= self.max.height
    }
}

/// The number between `low` and `high` that is nearest to `value`.
pub open spec fn nearest(value: u32, low: u32, high: u32) -> u32 {
    if value < low {
        low
    } else if value > high {
        high
    } else {
        value
    }
}

/// The size within the limits that is nearest to `size`.
pub open spec fn nearest_size(size: GuiSize, limits: GuiSizeLimits) -> GuiSize {
    GuiSize {
        width: nearest(size.width, limits.min.width, limits.max.width),
        height: nearest(size.height, limits.min.height, limits.max.height),
    }
}

fn clamp(value: u32, low: u32, high: u32) -> (result: u32)
    requires
        low <= high,
    ensures
        result == nearest(value, low, high),
{
    if value < low {
        low
    } else if value > high {
        high
    } else {
        value
    }
}

/// The size within the limits that is nearest to `size`.
pub fn clamp_size_with_limits(size: GuiSize, limits: GuiSizeLimits) -> (result: GuiSize)
    requires
        limits.are_ordered(),
    ensures
        result == nearest_size(size, limits),
{
    GuiSize {
        width: clamp(size.width, limits.min.width, limits.max.width),
        height: clamp(size.height, limits.min.height, limits.max.height),
    }
}

/// A clamped size lies within the limits, a size within the limits stays as it is, and clamping
/// twice is clamping once.
pub proof fn clamping_is_a_projection(size: GuiSize, limits: GuiSizeLimits)
    requires
        limits.are_ordered(),
    ensures
        limits.allow_size(nearest_size(size, limits)),
        limits.allow_size(size) ==> nearest_size(size, limits) == size,
        nearest_size(nearest_size(size, limits), limits) == nearest_size(size, limits),
{
}

/// One number that holds a width in its upper and a height in its lower half.
pub open spec fn packed(size: GuiSize) -> int {
    size.width * 0x1_0000_0000 + size.height
}

/// One number that holds a width in its upper and a height in its lower half.
pub fn pack_size(size: GuiSize) -> (bits: u64)
    ensures
        bits == packed(size),
{
    let width: u64 = size.width as u64;
    let height: u64 = size.height as u64;
    assert((width << 32) | height == width * 0x1_0000_0000 + height) by (bit_vector)
        requires
            width <= 0xffff_ffff,
            height <= 0xffff_ffff,
    ;
    (width << 32) | height
}

/// The width and the height that one number holds.
pub fn unpack_size(bits: u64) -> (size: GuiSize)
    ensures
        packed(size) == bits,
{
    let width: u64 = bits >> 32;
    assert(width <= 0xffff_ffff && width * 0x1_0000_0000 + (bits as u32) == bits) by (bit_vector)
        requires
            width == bits >> 32,
    ;
    GuiSize { width: width as u32, height: bits as u32 }
}

/// A packed size unpacks to itself: no two sizes share a packed form.
pub proof fn packing_loses_nothing(a: GuiSize, b: GuiSize)
    ensures
        packed(a) == packed(b) <==> a == b,
{
    if packed(a) == packed(b) {
        assert(a.width == b.width) by (nonlinear_arith)
            requires
                a.width * 0x1_0000_0000 + a.height == b.width * 0x1_0000_0000 + b.height,
                0 <= a.height < 0x1_0000_0000,
                0 <= b.height < 0x1_0000_0000,
        ;
    }
}

/// Whether the user may resize the GUI.
#[derive(Debug, Clone, Copy, PartialEq, Eq, Structural)]
pub struct GuiResizePolicy {
    pub can_resize: bool,
}

impl GuiResizePolicy {
    /// What the host is told of how the GUI can be resized.
    pub fn resize_hints(self) -> (hints: GuiResizeHints)
        ensures
            hints == (GuiResizeHints {
                can_resize_horizontally: self.can_resize,
                can_resize_vertically: self.can_resize,
                preserve_aspect_ratio: false,
                aspect_ratio_width: 0,
                aspect_ratio_height: 0,
            }),
    {
        GuiResizeHints {
            can_resize_horizontally: self.can_resize,
            can_resize_vertically: self.can_resize,
            preserve_aspect_ratio: false,
            aspect_ratio_width: 0,
            aspect_ratio_height: 0,
        }
    }
}

/// Whether a new size was taken, and the error where it was not. `answer` is what the runtime
/// said to the size, where there is a runtime.
pub open spec fn size_result(answer: Option<PluginResult<()>>) -> PluginResult<()> {
    match answer {
        Some(result) => result,
        None => Ok::<(), PluginError>(()),
    }
}

/// The size that is accepted once `size` was set: the one that the runtime has taken, or the one
/// of before where the runtime refused.
pub open spec fn size_after(
    limits: GuiSizeLimits,
    accepted: GuiSize,
    size: GuiSize,
    answer: Option<PluginResult<()>>,
) -> GuiSize {
    if size_result(answer) is Ok {
        nearest_size(size, limits)
    } else {
        accepted
    }
}

/// The layout that the host and the GUI have agreed on.
#[derive(Debug)]
pub struct HostGuiLayout {
    accepted_size: u64,
    limits: GuiSizeLimits,
    resize_policy: GuiResizePolicy,
}

impl HostGuiLayout {
    /// The size that was accepted last.
    pub closed spec fn accepted(self) -> GuiSize {
        choose|size: GuiSize| packed(size) == self.accepted_size
    }

    /// The limits of the size.
    pub closed spec fn size_limits(self) -> GuiSizeLimits {
        self.limits
    }

    /// Whether the user may resize the GUI.
    pub closed spec fn resizable(self) -> bool {
        self.resize_policy.can_resize
    }

    #[verifier::type_invariant]
    spec fn limits_are_ordered(self) -> bool {
        self.limits.are_ordered()
    }

    /// A layout that starts at the size nearest to `size`.
    pub fn new(size: GuiSize, limits: GuiSizeLimits, resize_policy: GuiResizePolicy) -> (layout:
        Self)
        requires
            limits.are_ordered(),
        ensures
            layout.accepted() == nearest_size(size, limits),
            layout.size_limits() == limits,
            layout.resizable() == resize_policy.can_resize,
    {
        let size = clamp_size_with_limits(size, limits);
        let layout = HostGuiLayout { accepted_size: pack_size(size), limits, resize_policy };
        proof {
            layout.lemma_accepted(size);
        }
        layout
    }

    proof fn lemma_accepted(self, size: GuiSize)
        requires
            packed(size) == self.accepted_size,
        ensures
            self.accepted() == size,
    {
        packing_loses_nothing(self.accepted(), size);
    }

    /// The size that was accepted last.
    pub fn accepted_size(&self) -> (size: GuiSize)
        ensures
            size == self.accepted(),
    {
        let size = unpack_size(self.accepted_size);
        proof {
            self.lemma_accepted(size);
        }
        size
    }

    /// The size within the limits that is nearest to `size`.
    pub fn clamp_size(&self, size: GuiSize) -> (result: GuiSize)
        ensures
            result == nearest_size(size, self.size_limits()),
            self.size_limits().are_ordered(),
    {
        proof {
            use_type_invariant(self);
        }
        clamp_size_with_limits(size, self.limits)
    }

    /// Accepts `size`.
    pub fn store_accepted_size(&mut self, size: GuiSize)
        ensures
            final(self).accepted() == size,
            final(self).size_limits() == old(self).size_limits(),
            final(self).resizable() == old(self).resizable(),
    {
        proof {
            use_type_invariant(&*self);
        }
        self.accepted_size = pack_size(size);
        proof {
            self.lemma_accepted(size);
        }
    }

    /// The last step of setting a size: the size within the limits is accepted, unless the runtime
    /// refused it. `answer` is what the runtime said to that size, where there is a runtime.
    pub fn set_size(&mut self, size: GuiSize, answer: Option<PluginResult<()>>) -> (result:
        PluginResult<()>)
        ensures
            result == size_result(answer),
            final(self).accepted() == size_after(
                old(self).size_limits(),
                old(self).accepted(),
                size,
                answer,
            ),
            final(self).size_limits() == old(self).size_limits(),
            final(self).resizable() == old(self).resizable(),
    {
        let result = match answer {
            Some(result) => result,
            None => Ok(()),
        };
        if result.is_ok() {
            let size = self.clamp_size(size);
            self.store_accepted_size(size);
        }
        result
    }

    /// Whether the user may resize the GUI.
    pub fn can_resize(&self) -> (yes: bool)
        ensures
            yes == self.resizable(),
    {
        self.resize_policy.can_resize
    }

    /// What the host is told of how the GUI can be resized.
    pub fn resize_hints(&self) -> (hints: GuiResizeHints)
        ensures
            hints == (GuiResizeHints {
                can_resize_horizontally: self.resizable(),
                can_resize_vertically: self.resizable(),
                preserve_aspect_ratio: false,
                aspect_ratio_width: 0,
                aspect_ratio_height: 0,
            }),
    {
        self.resize_policy.resize_hints()
    }
}

/// The operating system that the plugin runs on, as far as windowing goes.
#[derive(Debug, Clone, Copy, PartialEq, Eq, Structural)]
pub enum WindowSystem {
    Macos,
    Windows,
    Unix,
}

/// The windowing interface of an operating system.
pub open spec fn native_api(system: WindowSystem) -> GuiApi {
    match system {
        WindowSystem::Macos => GuiApi::Cocoa,
        WindowSystem::Windows => GuiApi::Win32,
        WindowSystem::Unix => GuiApi::X11,
    }
}

/// The windowing interface of an operating system.
pub fn default_gui_api(system: WindowSystem) -> (api: GuiApi)
    ensures
        api == native_api(system),
{
    match system {
        WindowSystem::Macos => GuiApi::Cocoa,
        WindowSystem::Windows => GuiApi::Win32,
        WindowSystem::Unix => GuiApi::X11,
    }
}

/// The configuration that the GUI prefers: embedded, by the native interface.
pub fn default_gui_configuration(system: WindowSystem) -> (configuration: GuiConfiguration)
    ensures
        configuration == (GuiConfiguration { api: native_api(system), is_floating: false }),
{
    GuiConfiguration { api: default_gui_api(system), is_floating: false }
}

/// Whether the GUI can be opened: only embedded, and only by the native interface.
pub fn is_api_supported(system: WindowSystem, api: GuiApi, is_floating: bool) -> (yes: bool)
    ensures
        yes == (!is_floating && api == native_api(system)),
{
    !is_floating && api == default_gui_api(system)
}

/// A size that was packed is unpacked as it was. The width stands in the upper half and the
/// height in the lower.
pub proof fn packed_sizes_are_unpacked(size: GuiSize, bits: u64, unpacked: GuiSize)
    requires
        call_ensures(pack_size, (size,), bits),
        call_ensures(unpack_size, (bits,), unpacked),
    ensures
        unpacked == size,
        bits as int / 0x1_0000_0000 == size.width,
        bits as int % 0x1_0000_0000 == size.height,
{
    packing_loses_nothing(size, unpacked);
}

/// A size is changed in each direction by itself, and no further than the limit that it passes.
pub proof fn sizes_are_moved_to_the_limit_they_pass(size: GuiSize, limits: GuiSizeLimits)
    requires
        limits.are_ordered(),
    ensures
        ({
            let nearest = nearest_size(size, limits);
            &&& size.width < limits.min.width ==> nearest.width == limits.min.width
            &&& size.width > limits.max.width ==> nearest.width == limits.max.width
            &&& limits.min.width <= size.width <= limits.max.width ==> nearest.width == size.width
            &&& size.height < limits.min.height ==> nearest.height == limits.min.height
            &&& size.height > limits.max.height ==> nearest.height == limits.max.height
            &&& limits.min.height <= size.height <= limits.max.height ==> nearest.height
                == size.height
        }),
{
}

/// A GUI that can be resized can be so both ways and in any ratio; one that cannot, in neither.
pub proof fn guis_are_resized_both_ways_or_not_at_all(
    layout: HostGuiLayout,
    hints: GuiResizeHints,
    can: bool,
)
    requires
        call_ensures(HostGuiLayout::resize_hints, (&layout,), hints),
        call_ensures(HostGuiLayout::can_resize, (&layout,), can),
    ensures
        hints.can_resize_horizontally == can,
        hints.can_resize_vertically == can,
        !hints.preserve_aspect_ratio,
        hints.aspect_ratio_width == 0,
        hints.aspect_ratio_height == 0,
{
}

/// A size that is set is the accepted one from there on, within the limits, unless the runtime
/// refuses it, which leaves the one of before; the limits and the policy stay.
pub proof fn refused_sizes_leave_the_accepted_one(
    layout: &mut HostGuiLayout,
    size: GuiSize,
    answer: Option<PluginResult<()>>,
    result: PluginResult<()>,
    accepted: GuiSize,
    asked: GuiSize,
    clamped: GuiSize,
)
    requires
        call_ensures(HostGuiLayout::set_size, (layout, size, answer), result),
        call_ensures(HostGuiLayout::accepted_size, (final(layout),), accepted),
        call_ensures(HostGuiLayout::clamp_size, (final(layout), asked), clamped),
    ensures
        answer is None ==> result is Ok,
        answer matches Some(refused) ==> result == refused,
        result is Err ==> accepted == old(layout).accepted(),
        result is Ok ==> old(layout).size_limits().allow_size(accepted),
        result is Ok && old(layout).size_limits().allow_size(size) ==> accepted == size,
        result is Ok && asked == size ==> accepted == clamped,
        old(layout).size_limits().allow_size(clamped),
        final(layout).resizable() == old(layout).resizable(),
{
}

/// Each system opens GUIs by its own windowing interface, embedded and in no other way.
pub proof fn guis_open_by_the_native_interface(
    system: WindowSystem,
    preferred: GuiConfiguration,
    api: GuiApi,
    is_floating: bool,
    supported: bool,
)
    requires
        call_ensures(default_gui_configuration, (system,), preferred),
        call_ensures(is_api_supported, (system, api, is_floating), supported),
    ensures
        !preferred.is_floating,
        preferred.api is Cocoa <==> system is Macos,
        preferred.api is Win32 <==> system is Windows,
        preferred.api is X11 <==> system is Unix,
        supported <==> !is_floating && api == preferred.api,
{
}

/// A size that is stored is the accepted one, and a new layout starts with the nearest one that its
/// limits allow.
pub proof fn stored_sizes_are_accepted(
    size: GuiSize,
    limits: GuiSizeLimits,
    policy: GuiResizePolicy,
    fresh: HostGuiLayout,
    layout: &mut HostGuiLayout,
    other: GuiSize,
    read: GuiSize,
    clamped: GuiSize,
)
    requires
        limits.are_ordered(),
        call_ensures(HostGuiLayout::new, (size, limits, policy), fresh),
        call_ensures(HostGuiLayout::store_accepted_size, (layout, other), ()),
        call_ensures(HostGuiLayout::accepted_size, (final(layout),), read),
        call_ensures(clamp_size_with_limits, (size, limits), clamped),
    ensures
        fresh.accepted() == clamped,
        limits.allow_size(clamped),
        limits.allow_size(size) ==> clamped == size,
        fresh.size_limits() == limits,
        fresh.resizable() == policy.can_resize,
        read == other,
        final(layout).size_limits() == old(layout).size_limits(),
{
}

} // verus!
