//! The entry of a plugin binary: how it starts and stops, and what it offers.

use vstd::prelude::*;

use crate::clap_abi::CLAP_PLUGIN_FACTORY_ID;
use crate::text;
use crate::wrac_clap_adapter::descriptor::PluginDescriptor;
use crate::wrac_clap_adapter::ffi::TextArgument;

verus! {

/// A version of the CLAP interface.
#[derive(Debug, Clone, Copy, PartialEq, Eq, Structural)]
pub struct ClapVersion {
    pub major: u32,
    pub minor: u32,
    pub revision: u32,
}

/// Whether `clap_sys::version::clap_version_is_compatible` accepts a version: it accepts every
/// version from the first stable one on.
#[verifier::external_body]
fn clap_version_is_compatible(version: ClapVersion) -> (compatible: bool)
    ensures
        compatible == (version.major >= 1),
{
    clap_sys::version::clap_version_is_compatible(
        clap_sys::version::clap_version {
            major: version.major,
            minor: version.minor,
            revision: version.revision,
        },
    )
}

// Starting and stopping

/// How often the host has started the binary without stopping it.
#[derive(Debug, Clone, Copy, PartialEq, Eq, Structural)]
pub struct EntryState {
    pub init_count: u64,
}

/// What follows from the start of the binary.
#[derive(Debug, Clone, Copy, PartialEq, Eq, Structural)]
pub enum InitStep {
    /// The product is to be started.
    StartProduct,
    /// The product runs already.
    AlreadyStarted,
    /// The path of the plugin is no text.
    Refused,
}

/// What follows from the stop of the binary.
#[derive(Debug, Clone, Copy, PartialEq, Eq, Structural)]
pub enum DeinitStep {
    /// The product is to be stopped.
    StopProduct,
    /// The product is still in use.
    StillInUse,
    /// The binary was not started.
    NotStarted,
}

/// What follows from a start while `count` starts are open.
pub open spec fn init_step(count: nat, path_is_text: bool) -> InitStep {
    if count > 0 {
        InitStep::AlreadyStarted
    } else if !path_is_text {
        InitStep::Refused
    } else {
        InitStep::StartProduct
    }
}

/// What follows from a stop while `count` starts are open.
pub open spec fn deinit_step(count: nat) -> DeinitStep {
    if count == 0 {
        DeinitStep::NotStarted
    } else if count == 1 {
        DeinitStep::StopProduct
    } else {
        DeinitStep::StillInUse
    }
}

/// How many starts are open after a start: one more, or none where it was refused.
pub open spec fn count_after_init(count: nat, step: InitStep) -> nat {
    if step is Refused {
        0
    } else {
        count + 1
    }
}

/// How many starts are open after the product has started, or has failed to.
pub open spec fn count_after_product(count: nat, started: bool) -> nat {
    if started {
        count
    } else {
        0
    }
}

/// How many starts are open after a stop.
pub open spec fn count_after_deinit(count: nat) -> nat {
    if count == 0 {
        0
    } else {
        (count - 1) as nat
    }
}

impl EntryState {
    /// A binary that was not started.
    pub fn new() -> (state: Self)
        ensures
            state.init_count == 0,
    {
        EntryState { init_count: 0 }
    }

    /// The host starts the binary. Only the first start reaches the product, and only where the
    /// path of the plugin is a text or is missing.
    pub fn init(&mut self, plugin_path: TextArgument<'_>) -> (step: InitStep)
        requires
            old(self).init_count < u64::MAX,
        ensures
            step == init_step(old(self).init_count as nat, !(plugin_path is Invalid)),
            final(self).init_count == count_after_init(old(self).init_count as nat, step),
    {
        self.init_count = self.init_count + 1;
        if self.init_count > 1 {
            return InitStep::AlreadyStarted;
        }
        match plugin_path {
            TextArgument::Invalid => {
                self.init_count = 0;
                InitStep::Refused
            },
            _ => InitStep::StartProduct,
        }
    }

    /// Takes note of whether the product started. Where it did not, the binary counts as not
    /// started. The result is what the host is told.
    pub fn product_started(&mut self, started: bool) -> (initialized: bool)
        ensures
            initialized == started,
            final(self).init_count == count_after_product(old(self).init_count as nat, started),
    {
        if !started {
            self.init_count = 0;
        }
        started
    }

    /// The host stops the binary. The last stop reaches the product.
    pub fn deinit(&mut self) -> (step: DeinitStep)
        ensures
            step == deinit_step(old(self).init_count as nat),
            final(self).init_count == count_after_deinit(old(self).init_count as nat),
    {
        if self.init_count == 0 {
            return DeinitStep::NotStarted;
        }
        self.init_count = self.init_count - 1;
        if self.init_count == 0 {
            DeinitStep::StopProduct
        } else {
            DeinitStep::StillInUse
        }
    }
}

// Factories

/// The factory by which wrappers learn the identity of an Audio Unit.
pub const CLAP_PLUGIN_FACTORY_INFO_AUV2: &'static str = "clap.plugin-factory-info-as-auv2.draft0";

/// The factory by which wrappers learn the identity of a VST3 plugin.
pub const CLAP_PLUGIN_FACTORY_INFO_VST3: &'static str = "clap.plugin-factory-info-as-vst3/0";

/// The factory by which wrappers learn the identity of an AAX plugin.
pub const CLAP_PLUGIN_FACTORY_INFO_AAX: &'static str = "clap.plugin-factory-info-as-aax/1";

/// The factory by which a wrapper binds a run loop to its thread.
pub const WRAC_PLUGIN_FACTORY_RUN_LOOP: &'static str =
    "com.novonotes.wrac.plugin-factory-run-loop/0";

/// A factory of the binary.
#[derive(Debug, Clone, Copy, PartialEq, Eq, Structural)]
pub enum FactoryKind {
    Plugins,
    Auv2Info,
    Vst3Info,
    AaxInfo,
    RunLoop,
}

/// In which formats a plugin has an identity of its own.
#[derive(Debug, Clone, Copy, PartialEq, Eq, Structural)]
pub struct FormatIdentities {
    pub auv2: bool,
    pub vst3: bool,
    pub aax: bool,
}

/// Whether any plugin has an identity as an Audio Unit.
pub open spec fn any_auv2(plugins: Seq<FormatIdentities>) -> bool {
    exists|i: int| 0 <= i < plugins.len() && (#[trigger] plugins[i]).auv2
}

/// Whether any plugin has an identity as a VST3 plugin.
pub open spec fn any_vst3(plugins: Seq<FormatIdentities>) -> bool {
    exists|i: int| 0 <= i < plugins.len() && (#[trigger] plugins[i]).vst3
}

/// Whether any plugin has an identity as an AAX plugin.
pub open spec fn any_aax(plugins: Seq<FormatIdentities>) -> bool {
    exists|i: int| 0 <= i < plugins.len() && (#[trigger] plugins[i]).aax
}

/// The formats in which any of the plugins has an identity.
fn formats_in_use(plugins: &[FormatIdentities]) -> (used: FormatIdentities)
    ensures
        used.auv2 == any_auv2(plugins@),
        used.vst3 == any_vst3(plugins@),
        used.aax == any_aax(plugins@),
{
    let mut used = FormatIdentities { auv2: false, vst3: false, aax: false };
    let mut i: usize = 0;
    while i < plugins.len()
        invariant
            i <= plugins@.len(),
            used.auv2 == (exists|j: int| 0 <= j < i && (#[trigger] plugins@[j]).auv2),
            used.vst3 == (exists|j: int| 0 <= j < i && (#[trigger] plugins@[j]).vst3),
            used.aax == (exists|j: int| 0 <= j < i && (#[trigger] plugins@[j]).aax),
        decreases plugins@.len() - i,
    {
        let plugin = plugins[i];
        used = FormatIdentities {
            auv2: used.auv2 || plugin.auv2,
            vst3: used.vst3 || plugin.vst3,
            aax: used.aax || plugin.aax,
        };
        i += 1;
    }
    used
}

/// The factory that an id names. A factory for the identities of a format exists only where a
/// plugin has one.
pub open spec fn factory_named(id: Seq<char>, plugins: Seq<FormatIdentities>) -> Option<
    FactoryKind,
> {
    if id == CLAP_PLUGIN_FACTORY_ID@ {
        Some(FactoryKind::Plugins)
    } else if id == CLAP_PLUGIN_FACTORY_INFO_AUV2@ && any_auv2(plugins) {
        Some(FactoryKind::Auv2Info)
    } else if id == CLAP_PLUGIN_FACTORY_INFO_VST3@ && any_vst3(plugins) {
        Some(FactoryKind::Vst3Info)
    } else if id == CLAP_PLUGIN_FACTORY_INFO_AAX@ && any_aax(plugins) {
        Some(FactoryKind::AaxInfo)
    } else if id == WRAC_PLUGIN_FACTORY_RUN_LOOP@ {
        Some(FactoryKind::RunLoop)
    } else {
        None
    }
}

/// The factory that the host asks for.
pub fn get_factory(factory_id: TextArgument<'_>, plugins: &[FormatIdentities]) -> (factory: Option<
    FactoryKind,
>)
    ensures
        factory == match factory_id {
            TextArgument::Text(id) => factory_named(id@, plugins@),
            _ => None,
        },
{
    let id = match factory_id {
        TextArgument::Text(id) => id,
        _ => {
            return None;
        },
    };
    let used = formats_in_use(plugins);
    if text::same_text(id, CLAP_PLUGIN_FACTORY_ID) {
        Some(FactoryKind::Plugins)
    } else if text::same_text(id, CLAP_PLUGIN_FACTORY_INFO_AUV2) && used.auv2 {
        Some(FactoryKind::Auv2Info)
    } else if text::same_text(id, CLAP_PLUGIN_FACTORY_INFO_VST3) && used.vst3 {
        Some(FactoryKind::Vst3Info)
    } else if text::same_text(id, CLAP_PLUGIN_FACTORY_INFO_AAX) && used.aax {
        Some(FactoryKind::AaxInfo)
    } else if text::same_text(id, WRAC_PLUGIN_FACTORY_RUN_LOOP) {
        Some(FactoryKind::RunLoop)
    } else {
        None
    }
}

// Creating a plugin

/// Why no plugin is created.
#[derive(Debug, Clone, Copy, PartialEq, Eq, Structural)]
pub enum CreateRefusal {
    /// The host or the id is missing.
    InvalidArguments,
    IncompatibleVersion,
    /// The id is no text.
    InvalidPluginId,
    UnknownPluginId,
}

/// The first descriptor with an id, from position `i` on.
pub open spec fn descriptor_with_id(
    descriptors: Seq<PluginDescriptor>,
    id: Seq<char>,
    i: int,
) -> Option<int>
    decreases descriptors.len() - i,
{
    if i < 0 || i >= descriptors.len() {
        None
    } else if descriptors[i].id@ == id {
        Some(i)
    } else {
        descriptor_with_id(descriptors, id, i + 1)
    }
}

/// Which of the descriptors describes the plugin that the host asks for. `host_version` is
/// `None` where there is no host.
pub fn plugin_to_create(
    host_version: Option<ClapVersion>,
    plugin_id: TextArgument<'_>,
    descriptors: &[PluginDescriptor],
) -> (choice: Result<usize, CreateRefusal>)
    ensures
        choice == match (host_version, plugin_id) {
            (None, _) => Err::<usize, CreateRefusal>(CreateRefusal::InvalidArguments),
            (_, TextArgument::Null) => Err(CreateRefusal::InvalidArguments),
            (Some(version), plugin_id) => if version.major < 1 {
                Err(CreateRefusal::IncompatibleVersion)
            } else {
                match plugin_id {
                    TextArgument::Text(id) => match descriptor_with_id(descriptors@, id@, 0) {
                        Some(i) => Ok(i as usize),
                        None => Err(CreateRefusal::UnknownPluginId),
                    },
                    _ => Err(CreateRefusal::InvalidPluginId),
                }
            },
        },
        choice matches Ok(index) ==> index < descriptors@.len(),
{
    let version = match host_version {
        Some(version) => version,
        None => {
            return Err(CreateRefusal::InvalidArguments);
        },
    };
    if let TextArgument::Null = plugin_id {
        return Err(CreateRefusal::InvalidArguments);
    }
    if !clap_version_is_compatible(version) {
        return Err(CreateRefusal::IncompatibleVersion);
    }
    let id = match plugin_id {
        TextArgument::Text(id) => id,
        _ => {
            return Err(CreateRefusal::InvalidPluginId);
        },
    };
    let mut i: usize = 0;
    while i < descriptors.len()
        invariant
            i <= descriptors@.len(),
            descriptor_with_id(descriptors@, id@, 0) == descriptor_with_id(
                descriptors@,
                id@,
                i as int,
            ),
            plugin_id == TextArgument::Text(id),
            host_version == Some(version),
            version.major >= 1,
        decreases descriptors@.len() - i,
    {
        if text::same_text(descriptors[i].id, id) {
            return Ok(i);
        }
        i += 1;
    }
    Err(CreateRefusal::UnknownPluginId)
}

// Histories

/// What a host does to the entry of a binary: it starts it, and the product then starts or not
/// where it is asked to, or it stops it.
#[derive(Debug, Clone, Copy, PartialEq, Eq, Structural)]
pub enum EntryCall {
    Init { path_is_text: bool, product_starts: bool },
    Deinit,
}

/// How many starts are open after a call.
pub open spec fn count_after(count: nat, call: EntryCall) -> nat {
    match call {
        EntryCall::Init { path_is_text, product_starts } => {
            let step = init_step(count, path_is_text);
            let started = count_after_init(count, step);
            if step is StartProduct {
                count_after_product(started, product_starts)
            } else {
                started
            }
        },
        EntryCall::Deinit => count_after_deinit(count),
    }
}

/// By how much a call changes how many products run.
pub open spec fn products_started(count: nat, call: EntryCall) -> int {
    match call {
        EntryCall::Init { path_is_text, product_starts } => if init_step(count, path_is_text)
            is StartProduct && product_starts {
            1
        } else {
            0
        },
        EntryCall::Deinit => if deinit_step(count) is StopProduct {
            -1
        } else {
            0
        },
    }
}

/// How many starts are open after a series of calls.
pub open spec fn open_starts(calls: Seq<EntryCall>) -> nat
    decreases calls.len(),
{
    if calls.len() == 0 {
        0
    } else {
        count_after(open_starts(calls.drop_last()), calls.last())
    }
}

/// How often the product was started less how often it was stopped.
pub open spec fn product_runs(calls: Seq<EntryCall>) -> int
    decreases calls.len(),
{
    if calls.len() == 0 {
        0
    } else {
        product_runs(calls.drop_last()) + products_started(
            open_starts(calls.drop_last()),
            calls.last(),
        )
    }
}

/// The product runs exactly while a start is open: it is started once, by the first start, and
/// stopped once, by the stop that closes the last.
pub proof fn the_product_runs_while_a_start_is_open(calls: Seq<EntryCall>)
    ensures
        product_runs(calls) == if open_starts(calls) > 0 {
            1int
        } else {
            0
        },
    decreases calls.len(),
{
    if calls.len() > 0 {
        the_product_runs_while_a_start_is_open(calls.drop_last());
    }
}

/// The first start alone reaches the product, and only with a path that is a text or is missing;
/// the stop that closes the first start reaches it again. Stops undo starts one by one.
pub proof fn stops_undo_starts(count: nat, path_is_text: bool)
    ensures
        init_step(count, path_is_text) is StartProduct <==> count == 0 && path_is_text,
        init_step(count, path_is_text) is AlreadyStarted <==> count > 0,
        init_step(0, false) is Refused,
        ({
            let step = init_step(count, path_is_text);
            let started = count_after_init(count, step);
            &&& !(step is Refused) ==> started == count + 1 && count_after_deinit(started) == count
            &&& step is StartProduct ==> deinit_step(started) is StopProduct
            &&& step is AlreadyStarted ==> deinit_step(started) is StillInUse
            &&& step is Refused ==> started == 0
            &&& step is StartProduct ==> count_after_product(started, false) == 0
            &&& step is StartProduct ==> count_after_product(started, true) == started
        }),
        deinit_step(count) is NotStarted <==> count == 0,
        count_after_deinit(0) == 0,
{
}

proof fn lemma_factories_have_names_of_their_own(id: Seq<char>, plugins: Seq<FormatIdentities>)
    ensures
        id == "clap.plugin-factory"@ ==> factory_named(id, plugins) == Some(FactoryKind::Plugins),
        id == "clap.plugin-factory-info-as-auv2.draft0"@ ==> factory_named(id, plugins)
            == if any_auv2(plugins) {
            Some(FactoryKind::Auv2Info)
        } else {
            None
        },
        id == "clap.plugin-factory-info-as-vst3/0"@ ==> factory_named(id, plugins)
            == if any_vst3(plugins) {
            Some(FactoryKind::Vst3Info)
        } else {
            None
        },
        id == "clap.plugin-factory-info-as-aax/1"@ ==> factory_named(id, plugins)
            == if any_aax(plugins) {
            Some(FactoryKind::AaxInfo)
        } else {
            None
        },
        id == "com.novonotes.wrac.plugin-factory-run-loop/0"@ ==> factory_named(id, plugins) == Some(
            FactoryKind::RunLoop,
        ),
{
    reveal_strlit("clap.plugin-factory");
    reveal_strlit("clap.plugin-factory-info-as-auv2.draft0");
    reveal_strlit("clap.plugin-factory-info-as-vst3/0");
    reveal_strlit("clap.plugin-factory-info-as-aax/1");
    reveal_strlit("com.novonotes.wrac.plugin-factory-run-loop/0");
    assert(CLAP_PLUGIN_FACTORY_ID@.len() == 19);
    assert(CLAP_PLUGIN_FACTORY_INFO_AUV2@.len() == 39);
    assert(CLAP_PLUGIN_FACTORY_INFO_VST3@.len() == 34);
    assert(CLAP_PLUGIN_FACTORY_INFO_AAX@.len() == 33);
    assert(WRAC_PLUGIN_FACTORY_RUN_LOOP@.len() == 44);
}

/// A host gets a factory exactly where it asks for it by its name. The identities of a format are
/// told where at least one plugin has one in that very format.
pub proof fn factories_are_found_by_name(
    id: &str,
    plugins: &[FormatIdentities],
    factory: Option<FactoryKind>,
)
    requires
        call_ensures(get_factory, (TextArgument::Text(id), plugins), factory),
    ensures
        factory == Some(FactoryKind::Plugins) <==> id@ == "clap.plugin-factory"@,
        factory == Some(FactoryKind::RunLoop) <==> id@
            == "com.novonotes.wrac.plugin-factory-run-loop/0"@,
        factory == Some(FactoryKind::Auv2Info) <==> id@
            == "clap.plugin-factory-info-as-auv2.draft0"@ && exists|i: int|
            0 <= i < plugins@.len() && (#[trigger] plugins@[i]).auv2,
        factory == Some(FactoryKind::Vst3Info) <==> id@ == "clap.plugin-factory-info-as-vst3/0"@
            && exists|i: int| 0 <= i < plugins@.len() && (#[trigger] plugins@[i]).vst3,
        factory == Some(FactoryKind::AaxInfo) <==> id@ == "clap.plugin-factory-info-as-aax/1"@
            && exists|i: int| 0 <= i < plugins@.len() && (#[trigger] plugins@[i]).aax,
{
    lemma_factories_have_names_of_their_own(id@, plugins@);
}

proof fn lemma_descriptor_with_id(descriptors: Seq<PluginDescriptor>, id: Seq<char>, i: int)
    requires
        0 <= i <= descriptors.len(),
    ensures
        match descriptor_with_id(descriptors, id, i) {
            Some(k) => i <= k < descriptors.len() && descriptors[k].id@ == id && forall|j: int|
                i <= j < k ==> (#[trigger] descriptors[j]).id@ != id,
            None => forall|j: int|
                i <= j < descriptors.len() ==> (#[trigger] descriptors[j]).id@ != id,
        },
    decreases descriptors.len() - i,
{
    if i < descriptors.len() && descriptors[i].id@ != id {
        lemma_descriptor_with_id(descriptors, id, i + 1);
    }
}

/// A plugin is created from the first descriptor that has the id that the host asks for. It is
/// refused where no descriptor has it, and before that where the host is missing, passes no id or
/// one that is no text, or has a version from before the first stable one.
pub proof fn plugins_are_created_by_id(
    version: Option<ClapVersion>,
    id: TextArgument<'_>,
    descriptors: &[PluginDescriptor],
    choice: Result<usize, CreateRefusal>,
)
    requires
        call_ensures(plugin_to_create, (version, id, descriptors), choice),
        descriptors@.len() <= usize::MAX,
    ensures
        choice == Err::<usize, CreateRefusal>(CreateRefusal::InvalidArguments) <==> version is None
            || id is Null,
        choice == Err::<usize, CreateRefusal>(CreateRefusal::IncompatibleVersion) <==> !(version
            is None || id is Null) && version->Some_0.major == 0,
        choice == Err::<usize, CreateRefusal>(CreateRefusal::InvalidPluginId) <==> version is Some
            && version->Some_0.major > 0 && id is Invalid,
        choice matches Ok(index) ==> {
            &&& version is Some && version->Some_0.major > 0 && id is Text
            &&& index < descriptors@.len()
            &&& descriptors@[index as int].id@ == id->Text_0@
            &&& forall|j: int| 0 <= j < index ==> (#[trigger] descriptors@[j]).id@ != id->Text_0@
        },
        choice == Err::<usize, CreateRefusal>(CreateRefusal::UnknownPluginId) ==> forall|j: int|
            0 <= j < descriptors@.len() ==> (#[trigger] descriptors@[j]).id@ != id->Text_0@,
{
    if id is Text {
        lemma_descriptor_with_id(descriptors@, id->Text_0@, 0);
    }
}

/// A host that starts the binary twice and stops it twice reaches the product once each time: with
/// the first start and with the last stop. A stop that was not preceded by a start reaches nothing,
/// nor does a start whose path is no text.
pub proof fn the_first_start_and_the_last_stop_reach_the_product(
    fresh: EntryState,
    path: TextArgument<'_>,
    first: &mut EntryState,
    second: &mut EntryState,
    third: &mut EntryState,
    fourth: &mut EntryState,
    fifth: &mut EntryState,
    starts: (InitStep, InitStep),
    stops: (DeinitStep, DeinitStep, DeinitStep),
    refused: &mut EntryState,
    refusal: InitStep,
    failed: &mut EntryState,
    told: bool,
)
    requires
        !(path is Invalid),
        call_ensures(EntryState::new, (), fresh),
        *first == fresh,
        call_ensures(EntryState::init, (first, path), starts.0),
        *second == *final(first),
        call_ensures(EntryState::init, (second, path), starts.1),
        *third == *final(second),
        call_ensures(EntryState::deinit, (third,), stops.0),
        *fourth == *final(third),
        call_ensures(EntryState::deinit, (fourth,), stops.1),
        *fifth == *final(fourth),
        call_ensures(EntryState::deinit, (fifth,), stops.2),
        *refused == fresh,
        call_ensures(EntryState::init, (refused, TextArgument::Invalid), refusal),
        *failed == *final(first),
        call_ensures(EntryState::product_started, (failed, false), told),
    ensures
        starts.0 is StartProduct && starts.1 is AlreadyStarted,
        stops.0 is StillInUse && stops.1 is StopProduct && stops.2 is NotStarted,
        refusal is Refused && *final(refused) == fresh,
        !told && *final(failed) == fresh,
{
}

} // verus!
