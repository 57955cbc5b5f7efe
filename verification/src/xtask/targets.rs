//! What the targets of the build commands are, and which a platform has.

use vstd::prelude::*;

use crate::text::{error_of, join2};
use crate::wrac_xtask::targets::Platform;

verus! {

/// What a build can make.
#[derive(Debug, Clone, Copy, PartialEq, Eq, Structural)]
pub enum Target {
    Clap,
    Vst3,
    Au,
    Standalone,
}

/// A plugin format that can be installed.
#[derive(Debug, Clone, Copy, PartialEq, Eq, Structural)]
pub enum PluginTarget {
    Clap,
    Vst3,
    Au,
}

/// A plugin format that can be validated.
#[derive(Debug, Clone, Copy, PartialEq, Eq, Structural)]
pub enum ValidateTarget {
    Vst3,
    Au,
}

impl Target {
    /// The name of the target as users see it.
    pub open spec fn label(self) -> Seq<char> {
        match self {
            Target::Clap => "CLAP"@,
            Target::Vst3 => "VST3"@,
            Target::Au => "AU"@,
            Target::Standalone => "Standalone"@,
        }
    }

    /// The name of the target as users see it.
    pub fn display(self) -> (name: &'static str)
        ensures
            name@ == self.label(),
    {
        match self {
            Target::Clap => "CLAP",
            Target::Vst3 => "VST3",
            Target::Au => "AU",
            Target::Standalone => "Standalone",
        }
    }

    /// Whether the target is a plugin in a wrapper.
    pub open spec fn is_wrapped(self) -> bool {
        self is Vst3 || self is Au
    }

    /// Whether the target is a plugin in a wrapper.
    pub fn is_wrapper(self) -> (wrapper: bool)
        ensures
            wrapper == self.is_wrapped(),
    {
        self == Target::Vst3 || self == Target::Au
    }

    /// The plugin format of the target. A standalone application has none.
    pub open spec fn plugin(self) -> Option<PluginTarget> {
        match self {
            Target::Clap => Some(PluginTarget::Clap),
            Target::Vst3 => Some(PluginTarget::Vst3),
            Target::Au => Some(PluginTarget::Au),
            Target::Standalone => None,
        }
    }

    /// The plugin format of the target.
    pub fn plugin_target(self) -> (target: Option<PluginTarget>)
        ensures
            target == self.plugin(),
    {
        match self {
            Target::Clap => Some(PluginTarget::Clap),
            Target::Vst3 => Some(PluginTarget::Vst3),
            Target::Au => Some(PluginTarget::Au),
            Target::Standalone => None,
        }
    }

    /// The target among those that are validated. Only a plugin in a wrapper is.
    pub open spec fn validation(self) -> Option<ValidateTarget> {
        match self {
            Target::Vst3 => Some(ValidateTarget::Vst3),
            Target::Au => Some(ValidateTarget::Au),
            Target::Clap | Target::Standalone => None,
        }
    }

    /// The target among those that are validated.
    pub fn validate_target(self) -> (target: Option<ValidateTarget>)
        ensures
            target == self.validation(),
    {
        match self {
            Target::Vst3 => Some(ValidateTarget::Vst3),
            Target::Au => Some(ValidateTarget::Au),
            Target::Clap | Target::Standalone => None,
        }
    }
}

impl PluginTarget {
    /// The same target among all targets.
    pub open spec fn as_target(self) -> Target {
        match self {
            PluginTarget::Clap => Target::Clap,
            PluginTarget::Vst3 => Target::Vst3,
            PluginTarget::Au => Target::Au,
        }
    }

    /// The same target among all targets.
    pub fn target(self) -> (target: Target)
        ensures
            target == self.as_target(),
    {
        match self {
            PluginTarget::Clap => Target::Clap,
            PluginTarget::Vst3 => Target::Vst3,
            PluginTarget::Au => Target::Au,
        }
    }

    /// The name of the target as users see it.
    pub fn display(self) -> (name: &'static str)
        ensures
            name@ == self.as_target().label(),
    {
        self.target().display()
    }
}

impl ValidateTarget {
    /// The same target among all targets.
    pub open spec fn as_target(self) -> Target {
        match self {
            ValidateTarget::Vst3 => Target::Vst3,
            ValidateTarget::Au => Target::Au,
        }
    }

    /// The same target among all targets.
    pub fn target(self) -> (target: Target)
        ensures
            target == self.as_target(),
    {
        match self {
            ValidateTarget::Vst3 => Target::Vst3,
            ValidateTarget::Au => Target::Au,
        }
    }

    /// The name of the target as users see it.
    pub fn display(self) -> (name: &'static str)
        ensures
            name@ == self.as_target().label(),
    {
        self.target().display()
    }
}

// Platforms

/// Whether a platform can have a target: an Audio Unit belongs to macOS.
pub open spec fn is_supported(platform: Platform, target: Target) -> bool {
    target is Au ==> platform is Macos
}

/// What is built where nothing is asked for.
pub open spec fn default_targets(platform: Platform) -> Seq<Target> {
    match platform {
        Platform::Macos => seq![Target::Clap, Target::Vst3, Target::Au, Target::Standalone],
        Platform::Windows => seq![Target::Clap, Target::Vst3, Target::Standalone],
        Platform::Linux => seq![Target::Clap],
    }
}

/// What is installed where nothing is asked for.
pub open spec fn default_plugins(platform: Platform) -> Seq<PluginTarget> {
    match platform {
        Platform::Macos => seq![PluginTarget::Clap, PluginTarget::Vst3, PluginTarget::Au],
        Platform::Windows => seq![PluginTarget::Clap, PluginTarget::Vst3],
        Platform::Linux => seq![PluginTarget::Clap],
    }
}

/// What is validated where nothing is asked for.
pub open spec fn default_validations(platform: Platform) -> Seq<ValidateTarget> {
    match platform {
        Platform::Macos => seq![ValidateTarget::Vst3, ValidateTarget::Au],
        Platform::Windows => seq![ValidateTarget::Vst3],
        Platform::Linux => Seq::empty(),
    }
}

impl Platform {
    /// Whether VST3 plugins can be built.
    pub fn supports_vst3(self) -> (supported: bool)
        ensures
            supported == is_supported(self, Target::Vst3),
    {
        true
    }

    /// Whether Audio Units can be built.
    pub fn supports_au(self) -> (supported: bool)
        ensures
            supported == is_supported(self, Target::Au),
    {
        self == Platform::Macos
    }

    /// Whether plugins can be wrapped in another format.
    pub fn supports_wrappers(self) -> (supported: bool)
        ensures
            supported == (is_supported(self, Target::Vst3) || is_supported(self, Target::Au)),
    {
        self.supports_vst3() || self.supports_au()
    }

    /// Whether a target can be built.
    pub fn supports_target(self, target: Target) -> (supported: bool)
        ensures
            supported == is_supported(self, target),
    {
        match target {
            Target::Clap => true,
            Target::Vst3 => self.supports_vst3(),
            Target::Au => self.supports_au(),
            Target::Standalone => true,
        }
    }

    /// What is built where nothing is asked for.
    pub fn default_build_targets(self) -> (targets: Vec<Target>)
        ensures
            targets@ == default_targets(self),
    {
        let mut targets: Vec<Target> = Vec::new();
        match self {
            Platform::Macos => {
                targets.push(Target::Clap);
                targets.push(Target::Vst3);
                targets.push(Target::Au);
                targets.push(Target::Standalone);
            },
            Platform::Windows => {
                targets.push(Target::Clap);
                targets.push(Target::Vst3);
                targets.push(Target::Standalone);
            },
            Platform::Linux => {
                targets.push(Target::Clap);
            },
        }
        assert(targets@ =~= default_targets(self));
        targets
    }

    /// What is installed where nothing is asked for.
    pub fn default_plugin_targets(self) -> (targets: Vec<PluginTarget>)
        ensures
            targets@ == default_plugins(self),
    {
        let mut targets: Vec<PluginTarget> = Vec::new();
        match self {
            Platform::Macos => {
                targets.push(PluginTarget::Clap);
                targets.push(PluginTarget::Vst3);
                targets.push(PluginTarget::Au);
            },
            Platform::Windows => {
                targets.push(PluginTarget::Clap);
                targets.push(PluginTarget::Vst3);
            },
            Platform::Linux => {
                targets.push(PluginTarget::Clap);
            },
        }
        assert(targets@ =~= default_plugins(self));
        targets
    }

    /// What is validated where nothing is asked for.
    pub fn default_validate_targets(self) -> (targets: Vec<ValidateTarget>)
        ensures
            targets@ == default_validations(self),
    {
        let mut targets: Vec<ValidateTarget> = Vec::new();
        match self {
            Platform::Macos => {
                targets.push(ValidateTarget::Vst3);
                targets.push(ValidateTarget::Au);
            },
            Platform::Windows => {
                targets.push(ValidateTarget::Vst3);
            },
            Platform::Linux => {
            },
        }
        assert(targets@ =~= default_validations(self));
        targets
    }
}

// Requests

/// A list without what it holds a second time.
pub open spec fn deduped<T>(list: Seq<T>) -> Seq<T>
    decreases list.len(),
{
    if list.len() == 0 {
        Seq::empty()
    } else {
        let before = deduped(list.drop_last());
        if before.contains(list.last()) {
            before
        } else {
            before.push(list.last())
        }
    }
}

/// Whether two lists hold the same.
pub open spec fn same_members<T>(a: Seq<T>, b: Seq<T>) -> bool {
    forall|x: T| #![trigger a.contains(x)] #![trigger b.contains(x)] a.contains(x) <==> b.contains(x)
}

/// Whether `x` stands in a list before any `y` does.
pub open spec fn comes_first<T>(list: Seq<T>, x: T, y: T) -> bool {
    exists|p: int|
        0 <= p < list.len() && #[trigger] list[p] == x && !list.take(p + 1).contains(y)
}

/// A list without repetitions holds what the list holds, each once, and in the order in which
/// each came first.
pub proof fn deduping_keeps_first_occurrences<T>(list: Seq<T>)
    ensures
        deduped(list).no_duplicates(),
        same_members(deduped(list), list),
        forall|i: int, j: int|
            0 <= i < j < deduped(list).len() ==> comes_first(
                list,
                #[trigger] deduped(list)[i],
                #[trigger] deduped(list)[j],
            ),
        list.no_duplicates() ==> deduped(list) == list,
        deduped(deduped(list)) == deduped(list),
    decreases list.len(),
{
    lemma_deduped(list);
    lemma_deduped_order(list);
    if list.no_duplicates() {
        lemma_deduped_same(list);
    }
    lemma_deduped_same(deduped(list));
}

proof fn lemma_deduped<T>(list: Seq<T>)
    ensures
        deduped(list).no_duplicates(),
        same_members(deduped(list), list),
    decreases list.len(),
{
    if list.len() > 0 {
        let rest = list.drop_last();
        let before = deduped(rest);
        lemma_deduped(rest);
        let after = deduped(list);
        assert(rest.push(list.last()) =~= list);
        assert(same_members(before, rest));
        assert forall|x: T|
            #![trigger after.contains(x)]
            #![trigger list.contains(x)]
            after.contains(x) <==> list.contains(x) by {
            if after.contains(x) {
                let i = choose|i: int| 0 <= i < after.len() && after[i] == x;
                if i < before.len() {
                    assert(before[i] == x);
                    assert(before.contains(x));
                    let j = choose|j: int| 0 <= j < rest.len() && rest[j] == x;
                    assert(list[j] == x);
                } else {
                    assert(list[list.len() - 1] == x);
                }
            }
            if list.contains(x) {
                let j = choose|j: int| 0 <= j < list.len() && list[j] == x;
                if j < rest.len() {
                    assert(rest[j] == x);
                    assert(before.contains(x));
                    let i = choose|i: int| 0 <= i < before.len() && before[i] == x;
                    assert(after[i] == x);
                } else if !before.contains(x) {
                    assert(after[before.len() as int] == x);
                }
            }
        }
    }
}

proof fn lemma_deduped_order<T>(list: Seq<T>)
    ensures
        forall|i: int, j: int|
            0 <= i < j < deduped(list).len() ==> comes_first(
                list,
                #[trigger] deduped(list)[i],
                #[trigger] deduped(list)[j],
            ),
    decreases list.len(),
{
    if list.len() > 0 {
        let rest = list.drop_last();
        let before = deduped(rest);
        let after = deduped(list);
        lemma_deduped(rest);
        lemma_deduped_order(rest);
        assert forall|i: int, j: int| 0 <= i < j < after.len() implies comes_first(
            list,
            #[trigger] after[i],
            #[trigger] after[j],
        ) by {
            let x = after[i];
            let y = after[j];
            assert(before[i] == x);
            let p = if j < before.len() {
                assert(comes_first(rest, before[i], before[j]));
                choose|p: int|
                    0 <= p < rest.len() && #[trigger] rest[p] == x && !rest.take(p + 1).contains(y)
            } else {
                assert(before.contains(x));
                assert(!rest.contains(y));
                choose|p: int| 0 <= p < rest.len() && #[trigger] rest[p] == x
            };
            assert(list[p] == x);
            let start = list.take(p + 1);
            assert(start =~= rest.take(p + 1));
            if start.contains(y) {
                let q = choose|q: int| 0 <= q < start.len() && start[q] == y;
                assert(rest[q] == y);
            }
        }
    }
}

proof fn lemma_deduped_same<T>(list: Seq<T>)
    requires
        list.no_duplicates(),
    ensures
        deduped(list) == list,
    decreases list.len(),
{
    if list.len() > 0 {
        let rest = list.drop_last();
        lemma_deduped_same(rest);
        if rest.contains(list.last()) {
            let j = choose|j: int| 0 <= j < rest.len() && rest[j] == list.last();
            assert(list[j] == list[list.len() - 1]);
        }
        assert(rest.push(list.last()) =~= list);
    }
}

/// The error of the first target from `i` on that a platform cannot have.
pub open spec fn support_error(platform: Platform, targets: Seq<Target>, i: int) -> Option<
    Seq<char>,
>
    decreases targets.len() - i,
{
    if i < 0 || i >= targets.len() {
        None
    } else if is_supported(platform, targets[i]) {
        support_error(platform, targets, i + 1)
    } else {
        Some(targets[i].label() + " is not supported on this operating system"@)
    }
}

fn check_support(platform: Platform, target: Target) -> (result: Result<(), String>)
    ensures
        error_of(result) == if is_supported(platform, target) {
            None
        } else {
            Some(target.label() + " is not supported on this operating system"@)
        },
{
    if platform.supports_target(target) {
        Ok(())
    } else {
        Err(join2(target.display(), " is not supported on this operating system"))
    }
}

/// Plugin formats among all targets.
pub open spec fn plugins_as_targets(list: Seq<PluginTarget>) -> Seq<Target> {
    list.map_values(|target: PluginTarget| target.as_target())
}

/// Formats to validate among all targets.
pub open spec fn validations_as_targets(list: Seq<ValidateTarget>) -> Seq<Target> {
    list.map_values(|target: ValidateTarget| target.as_target())
}

fn contains_targets(list: &Vec<Target>, target: Target) -> (found: bool)
    ensures
        found == list@.contains(target),
{
    let mut i: usize = 0;
    while i < list.len()
        invariant
            i <= list@.len(),
            forall|j: int| 0 <= j < i ==> list@[j] != target,
        decreases list@.len() - i,
    {
        if list[i] == target {
            assert(list@[i as int] == target);
            return true;
        }
        i += 1;
    }
    false
}

/// What is to be built: what was asked for, or what the platform has by default where
/// nothing was, each target once. A target that the platform cannot have is an error.
pub fn resolve_build_targets(platform: Platform, requested: &[Target]) -> (result: Result<Vec<Target>, String>)
    ensures
        ({
            let targets = if requested@.len() == 0 {
                default_targets(platform)
            } else {
                requested@
            };
            match support_error(platform, targets, 0) {
                Some(message) => result matches Err(error) && error@ == message,
                None => result matches Ok(list) && list@ == deduped(targets),
            }
        }),
{
    let defaults = platform.default_build_targets();
    let targets: &[Target] = if requested.len() == 0 {
        defaults.as_slice()
    } else {
        requested
    };
    let ghost all = targets@;
    let mut unique: Vec<Target> = Vec::new();
    let mut i: usize = 0;
    while i < targets.len()
        invariant
            i <= targets@.len(),
            targets@ == if requested@.len() == 0 {
                default_targets(platform)
            } else {
                requested@
            },
            all == targets@,
            support_error(platform, all, 0) == support_error(platform, all, i as int),
            unique@ == deduped(targets@.take(i as int)),
        decreases targets@.len() - i,
    {
        let target = targets[i];
        if let Err(message) = check_support(platform, target) {
            return Err(message);
        }
        proof {
            assert(targets@.take(i + 1).drop_last() =~= targets@.take(i as int));
            assert(targets@.take(i + 1).last() == target);
        }
        if !contains_targets(&unique, target) {
            unique.push(target);
        }
        i += 1;
    }
    assert(targets@.take(i as int) =~= targets@);
    Ok(unique)
}

fn contains_plugins(list: &Vec<PluginTarget>, target: PluginTarget) -> (found: bool)
    ensures
        found == list@.contains(target),
{
    let mut i: usize = 0;
    while i < list.len()
        invariant
            i <= list@.len(),
            forall|j: int| 0 <= j < i ==> list@[j] != target,
        decreases list@.len() - i,
    {
        if list[i] == target {
            assert(list@[i as int] == target);
            return true;
        }
        i += 1;
    }
    false
}

/// What is to be installed or removed: what was asked for, or what the platform has by default where
/// nothing was, each target once. A target that the platform cannot have is an error.
pub fn resolve_plugin_targets(platform: Platform, requested: &[PluginTarget]) -> (result: Result<Vec<PluginTarget>, String>)
    ensures
        ({
            let targets = if requested@.len() == 0 {
                default_plugins(platform)
            } else {
                requested@
            };
            match support_error(platform, plugins_as_targets(targets), 0) {
                Some(message) => result matches Err(error) && error@ == message,
                None => result matches Ok(list) && list@ == deduped(targets),
            }
        }),
{
    let defaults = platform.default_plugin_targets();
    let targets: &[PluginTarget] = if requested.len() == 0 {
        defaults.as_slice()
    } else {
        requested
    };
    let ghost all = plugins_as_targets(targets@);
    let mut unique: Vec<PluginTarget> = Vec::new();
    let mut i: usize = 0;
    while i < targets.len()
        invariant
            i <= targets@.len(),
            targets@ == if requested@.len() == 0 {
                default_plugins(platform)
            } else {
                requested@
            },
            all == plugins_as_targets(targets@),
            support_error(platform, all, 0) == support_error(platform, all, i as int),
            unique@ == deduped(targets@.take(i as int)),
        decreases targets@.len() - i,
    {
        let target = targets[i];
        if let Err(message) = check_support(platform, target.target()) {
            return Err(message);
        }
        proof {
            assert(targets@.take(i + 1).drop_last() =~= targets@.take(i as int));
            assert(targets@.take(i + 1).last() == target);
        }
        if !contains_plugins(&unique, target) {
            unique.push(target);
        }
        i += 1;
    }
    assert(targets@.take(i as int) =~= targets@);
    Ok(unique)
}

fn contains_validations(list: &Vec<ValidateTarget>, target: ValidateTarget) -> (found: bool)
    ensures
        found == list@.contains(target),
{
    let mut i: usize = 0;
    while i < list.len()
        invariant
            i <= list@.len(),
            forall|j: int| 0 <= j < i ==> list@[j] != target,
        decreases list@.len() - i,
    {
        if list[i] == target {
            assert(list@[i as int] == target);
            return true;
        }
        i += 1;
    }
    false
}

/// What is to be validated: what was asked for, or what the platform has by default where
/// nothing was, each target once. A target that the platform cannot have is an error.
pub fn resolve_validate_targets(platform: Platform, requested: &[ValidateTarget]) -> (result: Result<Vec<ValidateTarget>, String>)
    ensures
        ({
            let targets = if requested@.len() == 0 {
                default_validations(platform)
            } else {
                requested@
            };
            match support_error(platform, validations_as_targets(targets), 0) {
                Some(message) => result matches Err(error) && error@ == message,
                None => result matches Ok(list) && list@ == deduped(targets),
            }
        }),
{
    let defaults = platform.default_validate_targets();
    let targets: &[ValidateTarget] = if requested.len() == 0 {
        defaults.as_slice()
    } else {
        requested
    };
    let ghost all = validations_as_targets(targets@);
    let mut unique: Vec<ValidateTarget> = Vec::new();
    let mut i: usize = 0;
    while i < targets.len()
        invariant
            i <= targets@.len(),
            targets@ == if requested@.len() == 0 {
                default_validations(platform)
            } else {
                requested@
            },
            all == validations_as_targets(targets@),
            support_error(platform, all, 0) == support_error(platform, all, i as int),
            unique@ == deduped(targets@.take(i as int)),
        decreases targets@.len() - i,
    {
        let target = targets[i];
        if let Err(message) = check_support(platform, target.target()) {
            return Err(message);
        }
        proof {
            assert(targets@.take(i + 1).drop_last() =~= targets@.take(i as int));
            assert(targets@.take(i + 1).last() == target);
        }
        if !contains_validations(&unique, target) {
            unique.push(target);
        }
        i += 1;
    }
    assert(targets@.take(i as int) =~= targets@);
    Ok(unique)
}

/// Whatever is built, installed or validated by default, the platform can have.
pub proof fn defaults_are_supported(platform: Platform)
    ensures
        support_error(platform, default_targets(platform), 0) is None,
        support_error(platform, plugins_as_targets(default_plugins(platform)), 0) is None,
        support_error(platform, validations_as_targets(default_validations(platform)), 0) is None,
{
    reveal_with_fuel(support_error, 6);
}

/// Each target is known by the name that users see, and every name belongs to one target. A target
/// is installed as the format of its own name, and is validated where it is wrapped; both lead back
/// to it.
pub proof fn targets_are_known_by_name(target: Target, other: Target)
    ensures
        Target::Clap.label() == "CLAP"@,
        Target::Vst3.label() == "VST3"@,
        Target::Au.label() == "AU"@,
        Target::Standalone.label() == "Standalone"@,
        target.label() == other.label() ==> target == other,
        target.plugin() is None <==> target is Standalone,
        target.plugin() matches Some(plugin) ==> plugin.as_target() == target,
        target.validation() is Some <==> target.is_wrapped(),
        target.validation() matches Some(validation) ==> validation.as_target() == target,
        target.is_wrapped() <==> target is Vst3 || target is Au,
{
    reveal_strlit("CLAP");
    reveal_strlit("VST3");
    reveal_strlit("AU");
    reveal_strlit("Standalone");
    assert("CLAP"@.len() == 4 && "VST3"@.len() == 4 && "AU"@.len() == 2 && "Standalone"@.len()
        == 10);
    assert("CLAP"@[0] != "VST3"@[0]);
}

/// A format that is installed is that of the target of its own name, and so is one that is
/// validated.
pub proof fn formats_lead_to_their_target(plugin: PluginTarget, validation: ValidateTarget)
    ensures
        plugin.as_target().plugin() == Some(plugin),
        validation.as_target().validation() == Some(validation),
        plugin is Clap <==> plugin.as_target() is Clap,
        plugin is Vst3 <==> plugin.as_target() is Vst3,
        validation is Vst3 <==> validation.as_target() is Vst3,
        !(plugin.as_target() is Standalone),
{
}

/// Every platform can have everything but an Audio Unit, which belongs to macOS.
pub proof fn audio_units_belong_to_macos(
    platform: Platform,
    target: Target,
    supported: bool,
    vst3: bool,
    au: bool,
    wrappers: bool,
)
    requires
        call_ensures(Platform::supports_target, (platform, target), supported),
        call_ensures(Platform::supports_vst3, (platform,), vst3),
        call_ensures(Platform::supports_au, (platform,), au),
        call_ensures(Platform::supports_wrappers, (platform,), wrappers),
    ensures
        !(target is Au) ==> supported,
        target is Au ==> (supported <==> platform is Macos),
        vst3,
        au <==> platform is Macos,
        wrappers,
{
}

/// By default a platform makes what its users expect: everything that it can have on macOS, all but
/// an Audio Unit on Windows, and the plain plugin on Linux. What is installed are the plugins among
/// that, and what is validated are the wrapped ones.
pub proof fn defaults_are_what_users_expect(
    platform: Platform,
    targets: Vec<Target>,
    plugins: Vec<PluginTarget>,
    validations: Vec<ValidateTarget>,
    target: Target,
)
    requires
        call_ensures(Platform::default_build_targets, (platform,), targets),
        call_ensures(Platform::default_plugin_targets, (platform,), plugins),
        call_ensures(Platform::default_validate_targets, (platform,), validations),
    ensures
        targets@.contains(Target::Clap),
        targets@.contains(Target::Vst3) <==> !(platform is Linux),
        targets@.contains(Target::Au) <==> platform is Macos,
        targets@.contains(Target::Standalone) <==> !(platform is Linux),
        targets@.no_duplicates(),
        plugins@.no_duplicates(),
        validations@.no_duplicates(),
        target.plugin() matches Some(plugin) ==> (plugins@.contains(plugin) <==> targets@.contains(
            target,
        )),
        target.validation() matches Some(validation) ==> (validations@.contains(validation)
            <==> targets@.contains(target)),
{
    if platform is Macos {
        assert(targets@[0] == Target::Clap && targets@[1] == Target::Vst3 && targets@[2] == Target::Au
            && targets@[3] == Target::Standalone);
        assert(plugins@[0] == PluginTarget::Clap && plugins@[1] == PluginTarget::Vst3 && plugins@[2]
            == PluginTarget::Au);
        assert(validations@[0] == ValidateTarget::Vst3 && validations@[1] == ValidateTarget::Au);
    } else if platform is Windows {
        assert(targets@[0] == Target::Clap && targets@[1] == Target::Vst3 && targets@[2]
            == Target::Standalone);
        assert(plugins@[0] == PluginTarget::Clap && plugins@[1] == PluginTarget::Vst3);
        assert(validations@[0] == ValidateTarget::Vst3);
    } else {
        assert(targets@[0] == Target::Clap);
        assert(plugins@[0] == PluginTarget::Clap);
    }
}

proof fn lemma_support(platform: Platform, targets: Seq<Target>, i: int)
    requires
        0 <= i <= targets.len(),
    ensures
        support_error(platform, targets, i) is None <==> forall|k: int|
            i <= k < targets.len() ==> is_supported(platform, #[trigger] targets[k]),
        support_error(platform, targets, i) matches Some(message) ==> message
            == "AU"@ + " is not supported on this operating system"@,
    decreases targets.len() - i,
{
    if i < targets.len() {
        lemma_support(platform, targets, i + 1);
    }
}

/// What was asked for is made, each target once and in the order in which it was first asked for;
/// only an Audio Unit elsewhere than on macOS is refused.
pub proof fn requests_are_met_or_refused(
    platform: Platform,
    requested: &[Target],
    result: Result<Vec<Target>, String>,
    target: Target,
)
    requires
        call_ensures(resolve_build_targets, (platform, requested), result),
        requested@.len() > 0,
    ensures
        result is Ok <==> platform is Macos || !requested@.contains(Target::Au),
        result matches Ok(list) ==> list@.no_duplicates() && (list@.contains(target)
            <==> requested@.contains(target)),
        result matches Err(message) ==> message@
            == "AU"@ + " is not supported on this operating system"@,
{
    lemma_support(platform, requested@, 0);
    deduping_keeps_first_occurrences(requested@);
    if requested@.contains(Target::Au) {
        let k = requested@.index_of(Target::Au);
        assert(requested@[k] == Target::Au);
    }
    if result is Err {
        let k = choose|k: int|
            0 <= k < requested@.len() && !is_supported(platform, #[trigger] requested@[k]);
        assert(requested@[k] == Target::Au);
    }
}

/// What is installed or validated is resolved as what is built is: what was asked for, each once;
/// and only an Audio Unit elsewhere than on macOS is refused.
pub proof fn formats_are_met_or_refused(
    platform: Platform,
    requested: &[PluginTarget],
    result: Result<Vec<PluginTarget>, String>,
    plugin: PluginTarget,
    asked: &[ValidateTarget],
    answer: Result<Vec<ValidateTarget>, String>,
    validation: ValidateTarget,
)
    requires
        call_ensures(resolve_plugin_targets, (platform, requested), result),
        call_ensures(resolve_validate_targets, (platform, asked), answer),
        requested@.len() > 0,
        asked@.len() > 0,
    ensures
        result is Ok <==> platform is Macos || !requested@.contains(PluginTarget::Au),
        result matches Ok(list) ==> list@.no_duplicates() && (list@.contains(plugin)
            <==> requested@.contains(plugin)),
        answer is Ok <==> platform is Macos || !asked@.contains(ValidateTarget::Au),
        answer matches Ok(list) ==> list@.no_duplicates() && (list@.contains(validation)
            <==> asked@.contains(validation)),
{
    let plugins = plugins_as_targets(requested@);
    let validations = validations_as_targets(asked@);
    lemma_support(platform, plugins, 0);
    lemma_support(platform, validations, 0);
    deduping_keeps_first_occurrences(requested@);
    deduping_keeps_first_occurrences(asked@);
    if requested@.contains(PluginTarget::Au) {
        let k = requested@.index_of(PluginTarget::Au);
        assert(plugins[k] == Target::Au);
    }
    if asked@.contains(ValidateTarget::Au) {
        let k = asked@.index_of(ValidateTarget::Au);
        assert(validations[k] == Target::Au);
    }
    if result is Err {
        let k = choose|k: int|
            0 <= k < plugins.len() && !is_supported(platform, #[trigger] plugins[k]);
        assert(plugins[k] == requested@[k].as_target());
        assert(requested@[k] == PluginTarget::Au);
    }
    if answer is Err {
        let k = choose|k: int|
            0 <= k < validations.len() && !is_supported(platform, #[trigger] validations[k]);
        assert(validations[k] == asked@[k].as_target());
        assert(asked@[k] == ValidateTarget::Au);
    }
}

/// Where nothing is asked for, the default is made.
pub proof fn nothing_asked_for_is_the_default(
    platform: Platform,
    requested: &[Target],
    result: Result<Vec<Target>, String>,
    defaults: Vec<Target>,
    target: Target,
)
    requires
        call_ensures(resolve_build_targets, (platform, requested), result),
        call_ensures(Platform::default_build_targets, (platform,), defaults),
        requested@.len() == 0,
    ensures
        result matches Ok(list) && (list@.contains(target) <==> defaults@.contains(target)),
{
    defaults_are_supported(platform);
    deduping_keeps_first_occurrences(defaults@);
}

/// A target is told by its name, wrapped, installed and validated as the laws above say.
pub proof fn targets_are_told_by_their_name(
    target: Target,
    name: &str,
    wrapper: bool,
    plugin: Option<PluginTarget>,
    validation: Option<ValidateTarget>,
    format: PluginTarget,
    of_format: Target,
    format_name: &str,
    validated: ValidateTarget,
    of_validated: Target,
    validated_name: &str,
)
    requires
        call_ensures(Target::display, (target,), name),
        call_ensures(Target::is_wrapper, (target,), wrapper),
        call_ensures(Target::plugin_target, (target,), plugin),
        call_ensures(Target::validate_target, (target,), validation),
        call_ensures(PluginTarget::target, (format,), of_format),
        call_ensures(PluginTarget::display, (format,), format_name),
        call_ensures(ValidateTarget::target, (validated,), of_validated),
        call_ensures(ValidateTarget::display, (validated,), validated_name),
    ensures
        name@ == target.label(),
        wrapper <==> target is Vst3 || target is Au,
        plugin == target.plugin(),
        validation == target.validation(),
        of_format == format.as_target() && format_name@ == of_format.label(),
        of_validated == validated.as_target() && validated_name@ == of_validated.label(),
{
}

} // verus!
