//! The state of the plugin: what is heard, and what a project holds beside it.

use vstd::prelude::*;

use crate::text;
use crate::wrac_gain_plugin::parameters::{
    clamp_gain,
    clamped_gain,
    is_on,
    turns_on,
    INFINITY_BITS,
    MAX_GAIN_BITS,
    NEGATIVE_ZERO_BITS,
    PARAM_BYPASS_ID,
    PARAM_GAIN_ID,
    UNITY_GAIN_BITS,
};

verus! {

/// A page of the editor.
#[derive(Debug, Clone, Copy, PartialEq, Eq, Structural)]
pub enum EditorPage {
    Controls,
    About,
}

impl Default for EditorPage {
    fn default() -> (page: Self)
        ensures
            page == EditorPage::Controls,
    {
        EditorPage::Controls
    }
}

impl EditorPage {
    /// The name of the page.
    pub open spec fn name(self) -> Seq<char> {
        match self {
            EditorPage::Controls => "controls"@,
            EditorPage::About => "about"@,
        }
    }

    /// The page with a name.
    pub open spec fn named(value: Seq<char>) -> Option<EditorPage> {
        if value == "controls"@ {
            Some(EditorPage::Controls)
        } else if value == "about"@ {
            Some(EditorPage::About)
        } else {
            None
        }
    }

    /// The name of the page.
    pub fn as_str(self) -> (name: &'static str)
        ensures
            name@ == self.name(),
    {
        match self {
            EditorPage::Controls => "controls",
            EditorPage::About => "about",
        }
    }

    /// The page with a name.
    pub fn from_str(value: &str) -> (page: Option<Self>)
        ensures
            page == EditorPage::named(value@),
    {
        if text::same_text(value, "controls") {
            Some(EditorPage::Controls)
        } else if text::same_text(value, "about") {
            Some(EditorPage::About)
        } else {
            None
        }
    }
}

/// A page is found again by its name.
pub proof fn page_names_are_read_back(page: EditorPage)
    ensures
        EditorPage::named(page.name()) == Some(page),
{
    reveal_strlit("controls");
    reveal_strlit("about");
    assert("controls"@.len() != "about"@.len());
}

/// What a project holds that is not heard.
#[derive(Debug, Clone, Copy, PartialEq, Eq, Structural)]
pub struct ProjectState {
    pub editor_page: EditorPage,
}

impl Default for ProjectState {
    fn default() -> (state: Self)
        ensures
            state.editor_page == EditorPage::Controls,
    {
        ProjectState { editor_page: EditorPage::Controls }
    }
}

/// The values of the parameters. The gain is given by its bits.
#[derive(Debug, Clone, Copy, PartialEq, Eq, Structural)]
pub struct ParameterStateSnapshot {
    pub gain: u32,
    pub bypass: bool,
}

/// A new value of a parameter.
#[derive(Debug, Clone, Copy, PartialEq, Eq, Structural)]
pub enum ParameterUpdate {
    Gain(u32),
    Bypass(bool),
}

/// What is stored where a parameter is set: a gain is clamped, and a bypass is on from one half
/// on. `value` is the bits of the double that was given, `narrowed` those of the nearest single.
pub open spec fn update_of(id: u32, value: u64, narrowed: u32) -> Option<ParameterUpdate> {
    if id == PARAM_GAIN_ID {
        Some(ParameterUpdate::Gain(clamped_gain(narrowed)))
    } else if id == PARAM_BYPASS_ID {
        Some(ParameterUpdate::Bypass(is_on(value)))
    } else {
        None
    }
}

/// What is stored where a parameter is set.
pub fn parameter_update(id: u32, value: u64, narrowed: u32) -> (update: Option<ParameterUpdate>)
    ensures
        update == update_of(id, value, narrowed),
{
    if id == PARAM_GAIN_ID {
        Some(ParameterUpdate::Gain(clamp_gain(narrowed)))
    } else if id == PARAM_BYPASS_ID {
        Some(ParameterUpdate::Bypass(turns_on(value)))
    } else {
        None
    }
}

impl ParameterUpdate {
    /// The bits of the single that stands for the new value.
    pub open spec fn bits(self) -> u32 {
        match self {
            ParameterUpdate::Gain(gain) => gain,
            ParameterUpdate::Bypass(bypass) => if bypass {
                UNITY_GAIN_BITS
            } else {
                0
            },
        }
    }

    /// The bits of the single that stands for the new value.
    pub fn value(self) -> (bits: u32)
        ensures
            bits == self.bits(),
    {
        match self {
            ParameterUpdate::Gain(gain) => gain,
            ParameterUpdate::Bypass(bypass) => if bypass {
                UNITY_GAIN_BITS
            } else {
                0
            },
        }
    }
}

impl ParameterStateSnapshot {
    /// The values of a new plugin: the signal passes as it is.
    pub fn new() -> (state: Self)
        ensures
            state == (ParameterStateSnapshot { gain: UNITY_GAIN_BITS, bypass: false }),
    {
        ParameterStateSnapshot { gain: UNITY_GAIN_BITS, bypass: false }
    }

    /// Whether the gain is one that a parameter can have.
    pub open spec fn is_valid(self) -> bool {
        clamped_gain(self.gain) == self.gain
    }

    /// The values after an update.
    pub open spec fn updated(self, update: ParameterUpdate) -> Self {
        match update {
            ParameterUpdate::Gain(gain) => ParameterStateSnapshot { gain, ..self },
            ParameterUpdate::Bypass(bypass) => ParameterStateSnapshot { bypass, ..self },
        }
    }

    /// Stores an update.
    pub fn store(&mut self, update: ParameterUpdate)
        ensures
            *final(self) == old(self).updated(update),
    {
        match update {
            ParameterUpdate::Gain(gain) => {
                self.gain = gain;
            },
            ParameterUpdate::Bypass(bypass) => {
                self.bypass = bypass;
            },
        }
    }

    /// The bits of the value of a parameter.
    pub open spec fn value_of(self, id: u32) -> Option<u32> {
        if id == PARAM_GAIN_ID {
            Some(self.gain)
        } else if id == PARAM_BYPASS_ID {
            Some(ParameterUpdate::Bypass(self.bypass).bits())
        } else {
            None
        }
    }

    /// The bits of the value of a parameter.
    pub fn parameter_value(&self, id: u32) -> (value: Option<u32>)
        ensures
            value == self.value_of(id),
    {
        if id == PARAM_GAIN_ID {
            Some(self.gain)
        } else if id == PARAM_BYPASS_ID {
            Some(ParameterUpdate::Bypass(self.bypass).value())
        } else {
            None
        }
    }

    /// The gain by which samples are multiplied: that of the gain parameter, unless the bypass
    /// is on.
    pub open spec fn effective_gain(self) -> u32 {
        if self.bypass {
            UNITY_GAIN_BITS
        } else {
            self.gain
        }
    }

    /// The gain by which samples are multiplied.
    pub fn gain_in_effect(&self) -> (gain: u32)
        ensures
            gain == self.effective_gain(),
            self.bypass ==> gain == UNITY_GAIN_BITS,
            !self.bypass ==> gain == self.gain,
    {
        if self.bypass {
            UNITY_GAIN_BITS
        } else {
            self.gain
        }
    }
}

/// A parameter that is set reads as what was stored, and no other parameter changes.
pub proof fn a_parameter_reads_as_it_was_set(
    state: ParameterStateSnapshot,
    id: u32,
    value: u64,
    narrowed: u32,
    other: u32,
)
    requires
        update_of(id, value, narrowed) is Some,
    ensures
        ({
            let update = update_of(id, value, narrowed)->Some_0;
            let after = state.updated(update);
            &&& after.value_of(id) == Some(update.bits())
            &&& other != id ==> after.value_of(other) == state.value_of(other)
            &&& state.is_valid() ==> after.is_valid()
        }),
{
}

/// A bypass lets the signal through, whatever the gain is; without it the gain is heard.
pub proof fn a_bypass_lets_the_signal_through(state: ParameterStateSnapshot)
    ensures
        state.bypass ==> state.effective_gain() == UNITY_GAIN_BITS,
        !state.bypass ==> state.effective_gain() == state.gain,
{
}

/// While the bypass is on no gain is heard, and the last one that was stored is heard once the
/// bypass goes off.
pub proof fn a_bypass_hides_the_gain_until_it_ends(
    state: ParameterStateSnapshot,
    gain: u32,
    other: u32,
)
    ensures
        ({
            let bypassed = state.updated(ParameterUpdate::Bypass(true));
            let changed = bypassed.updated(ParameterUpdate::Gain(gain));
            let ended = changed.updated(ParameterUpdate::Bypass(false));
            &&& changed.effective_gain() == bypassed.effective_gain()
            &&& bypassed.effective_gain() == UNITY_GAIN_BITS
            &&& ended.effective_gain() == gain
            &&& bypassed.updated(ParameterUpdate::Bypass(false)).effective_gain() == state.gain
            &&& changed.updated(ParameterUpdate::Gain(other)).effective_gain() == UNITY_GAIN_BITS
        }),
{
}

/// An update replaces the value that it is for, and leaves the other one as it is.
pub proof fn an_update_replaces_one_value(
    state: ParameterStateSnapshot,
    gain: u32,
    bypass: bool,
)
    ensures
        state.updated(ParameterUpdate::Gain(gain)).gain == gain,
        state.updated(ParameterUpdate::Gain(gain)).bypass == state.bypass,
        state.updated(ParameterUpdate::Bypass(bypass)).bypass == bypass,
        state.updated(ParameterUpdate::Bypass(bypass)).gain == state.gain,
{
}

/// A gain is read as it is held, and a bypass as 1 where it is on and as 0 where it is off. No
/// other id has a value.
pub proof fn values_are_read_as_they_are_held(state: ParameterStateSnapshot, id: u32)
    ensures
        state.value_of(PARAM_GAIN_ID) == Some(state.gain),
        state.bypass ==> state.value_of(PARAM_BYPASS_ID) == Some(UNITY_GAIN_BITS),
        !state.bypass ==> state.value_of(PARAM_BYPASS_ID) == Some(0u32),
        state.value_of(id) is Some <==> id == PARAM_GAIN_ID || id == PARAM_BYPASS_ID,
{
}

/// A gain from 0 to 2 is stored as it is, one above as 2 and one below as 0, whatever the double
/// is. A bypass goes by the double alone: it is on from one half on. Nothing else is stored.
pub proof fn values_are_stored_within_their_range(id: u32, value: u64, narrowed: u32)
    ensures
        narrowed <= MAX_GAIN_BITS ==> update_of(PARAM_GAIN_ID, value, narrowed) == Some(
            ParameterUpdate::Gain(narrowed),
        ),
        MAX_GAIN_BITS < narrowed <= INFINITY_BITS ==> update_of(PARAM_GAIN_ID, value, narrowed)
            == Some(ParameterUpdate::Gain(MAX_GAIN_BITS)),
        NEGATIVE_ZERO_BITS < narrowed <= NEGATIVE_ZERO_BITS + INFINITY_BITS ==> update_of(
            PARAM_GAIN_ID,
            value,
            narrowed,
        ) == Some(ParameterUpdate::Gain(0)),
        value < 0x3fe0_0000_0000_0000 ==> update_of(PARAM_BYPASS_ID, value, narrowed) == Some(
            ParameterUpdate::Bypass(false),
        ),
        0x3fe0_0000_0000_0000 <= value <= 0x7ff0_0000_0000_0000 ==> update_of(
            PARAM_BYPASS_ID,
            value,
            narrowed,
        ) == Some(ParameterUpdate::Bypass(true)),
        value > 0x7ff0_0000_0000_0000 ==> update_of(PARAM_BYPASS_ID, value, narrowed) == Some(
            ParameterUpdate::Bypass(false),
        ),
        update_of(id, value, narrowed) is Some <==> id == PARAM_GAIN_ID || id == PARAM_BYPASS_ID,
{
}

// Projects

/// What a project holds of the plugin.
#[derive(Debug, Clone, Copy, PartialEq, Eq, Structural)]
pub struct SavedPluginState {
    pub gain: u32,
    pub bypass: bool,
    pub editor_page: EditorPage,
}

/// What a project holds of the plugin.
pub open spec fn saved(project: ProjectState, parameters: ParameterStateSnapshot) -> SavedPluginState {
    SavedPluginState {
        gain: parameters.gain,
        bypass: parameters.bypass,
        editor_page: project.editor_page,
    }
}

/// What a project holds of the plugin.
pub fn save_state(project: ProjectState, parameters: ParameterStateSnapshot) -> (state:
    SavedPluginState)
    ensures
        state == saved(project, parameters),
{
    SavedPluginState {
        gain: parameters.gain,
        bypass: parameters.bypass,
        editor_page: project.editor_page,
    }
}

/// The state that a project gives back. Its gain is clamped, as any that comes from outside.
pub open spec fn restored(state: SavedPluginState) -> (ProjectState, ParameterStateSnapshot) {
    (
        ProjectState { editor_page: state.editor_page },
        ParameterStateSnapshot { gain: clamped_gain(state.gain), bypass: state.bypass },
    )
}

/// The state that a project gives back.
pub fn restore_state(state: SavedPluginState) -> (result: (ProjectState, ParameterStateSnapshot))
    ensures
        result == restored(state),
{
    (
        ProjectState { editor_page: state.editor_page },
        ParameterStateSnapshot { gain: clamp_gain(state.gain), bypass: state.bypass },
    )
}

/// A project holds each value under its own name, and gives each back under that name: a gain
/// from 0 to 2 as it is, and any other number as the nearest of these.
pub proof fn projects_hold_values_by_name(
    project: ProjectState,
    parameters: ParameterStateSnapshot,
    state: SavedPluginState,
)
    ensures
        saved(project, parameters).gain == parameters.gain,
        saved(project, parameters).bypass == parameters.bypass,
        saved(project, parameters).editor_page == project.editor_page,
        restored(state).0.editor_page == state.editor_page,
        restored(state).1.bypass == state.bypass,
        state.gain <= MAX_GAIN_BITS ==> restored(state).1.gain == state.gain,
        MAX_GAIN_BITS < state.gain <= INFINITY_BITS ==> restored(state).1.gain == MAX_GAIN_BITS,
        NEGATIVE_ZERO_BITS < state.gain <= NEGATIVE_ZERO_BITS + INFINITY_BITS ==> restored(
            state,
        ).1.gain == 0,
{
}

/// A project gives back what was saved, and whatever it holds gives back valid parameters.
pub proof fn projects_give_back_what_was_saved(
    project: ProjectState,
    parameters: ParameterStateSnapshot,
    anything: SavedPluginState,
)
    ensures
        parameters.is_valid() ==> restored(saved(project, parameters)) == (project, parameters),
        restored(anything).1.is_valid(),
{
}

/// What is stored is what is read and heard: a value that comes in replaces the one it is for, the
/// gain is heard unless the bypass is on, and pages are found by their names.
pub proof fn what_is_stored_is_heard(
    state: &mut ParameterStateSnapshot,
    id: u32,
    value: u64,
    narrowed: u32,
    update: ParameterUpdate,
    made: Option<ParameterUpdate>,
    bits: u32,
    read: Option<u32>,
    gain: u32,
)
    requires
        call_ensures(parameter_update, (id, value, narrowed), made),
        made == Some(update),
        call_ensures(ParameterUpdate::value, (update,), bits),
        call_ensures(ParameterStateSnapshot::store, (state, update), ()),
        call_ensures(ParameterStateSnapshot::parameter_value, (final(state), id), read),
        call_ensures(ParameterStateSnapshot::gain_in_effect, (final(state),), gain),
    ensures
        read == Some(bits),
        made == update_of(id, value, narrowed),
        final(state).bypass ==> gain == UNITY_GAIN_BITS,
        !final(state).bypass ==> gain == final(state).gain,
        update matches ParameterUpdate::Gain(g) ==> final(state).gain == g && final(state).bypass
            == old(state).bypass,
        update matches ParameterUpdate::Bypass(b) ==> final(state).bypass == b && final(state).gain
            == old(state).gain,
{
    a_parameter_reads_as_it_was_set(*old(state), id, value, narrowed, id);
}

/// A page is found by the name that it is saved under, and what a project saved it gives back.
pub proof fn pages_and_projects_come_back(
    page: EditorPage,
    name: &'static str,
    found: Option<EditorPage>,
    project: ProjectState,
    parameters: ParameterStateSnapshot,
    state: SavedPluginState,
    result: (ProjectState, ParameterStateSnapshot),
)
    requires
        call_ensures(EditorPage::as_str, (page,), name),
        call_ensures(EditorPage::from_str, (name,), found),
        call_ensures(save_state, (project, parameters), state),
        call_ensures(restore_state, (state,), result),
        parameters.is_valid(),
    ensures
        found == Some(page),
        state.gain == parameters.gain && state.bypass == parameters.bypass && state.editor_page
            == project.editor_page,
        result == (project, parameters),
{
    page_names_are_read_back(page);
    projects_give_back_what_was_saved(project, parameters, state);
}

} // verus!
