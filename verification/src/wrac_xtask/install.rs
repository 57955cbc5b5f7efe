//! Where products are installed, and which of them is launched.

use vstd::prelude::*;

use crate::text::{join, join2, join3, joined, same_text, texts};
use crate::wrac_xtask::metadata::{PluginMetadata, PluginProductMetadata};
use crate::wrac_xtask::targets::{
    InstallScope, Platform, PluginFormat, PluginTarget, UninstallScope,
};

verus! {

/// The directory that an install location starts from.
#[derive(Debug, Clone, Copy, PartialEq, Eq, Structural)]
pub enum InstallBase {
    /// The root of the file system.
    Root,
    /// The home directory of the user.
    Home,
    /// The local application data of a Windows user.
    LocalAppData,
    /// The program files that Windows products share.
    CommonProgramFiles,
}

/// A directory for products: a base and the path below it, step by step.
#[derive(Debug)]
pub struct InstallLocation {
    pub base: InstallBase,
    pub below: Vec<&'static str>,
}

/// What a directory is.
pub ghost struct Place {
    pub base: InstallBase,
    pub below: Seq<Seq<char>>,
}

impl View for InstallLocation {
    type V = Place;

    open spec fn view(&self) -> Place {
        Place {
            base: self.base,
            below: Seq::new(self.below@.len(), |i: int| self.below@[i]@),
        }
    }
}

/// For whom a format is installed when nothing is said: AAX for every user, since its hosts look
/// nowhere else, and the others for the user.
pub open spec fn resolved_scope(scope: InstallScope, format: PluginFormat) -> InstallScope {
    match scope {
        InstallScope::Default => if format == PluginFormat::Aax {
            InstallScope::System
        } else {
            InstallScope::User
        },
        _ => scope,
    }
}

/// For whom a format is installed. The result is never the default.
pub fn effective_install_scope(scope: InstallScope, format: PluginFormat) -> (result: InstallScope)
    ensures
        result == resolved_scope(scope, format),
        result != InstallScope::Default,
{
    match scope {
        InstallScope::Default => match format {
            PluginFormat::Aax => InstallScope::System,
            _ => InstallScope::User,
        },
        _ => scope,
    }
}

/// Where hosts look for a format, for every user or for one, or why there is no such place.
pub open spec fn place_of(platform: Platform, system: bool, format: PluginFormat) -> Result<
    Place,
    Seq<char>,
> {
    match platform {
        Platform::Macos => match format {
            PluginFormat::Clap => if system {
                Ok(Place { base: InstallBase::Root, below: seq!["/Library/Audio/Plug-Ins/CLAP"@] })
            } else {
                Ok(Place { base: InstallBase::Home, below: seq!["Library/Audio/Plug-Ins/CLAP"@] })
            },
            PluginFormat::Vst3 => if system {
                Ok(Place { base: InstallBase::Root, below: seq!["/Library/Audio/Plug-Ins/VST3"@] })
            } else {
                Ok(Place { base: InstallBase::Home, below: seq!["Library/Audio/Plug-Ins/VST3"@] })
            },
            PluginFormat::Au => if system {
                Ok(Place { base: InstallBase::Root, below: seq!["/Library/Audio/Plug-Ins/Components"@] })
            } else {
                Ok(Place { base: InstallBase::Home, below: seq!["Library/Audio/Plug-Ins/Components"@] })
            },
            PluginFormat::Aax => if system {
                Ok(Place { base: InstallBase::Root, below: seq!["/Library/Application Support/Avid/Audio/Plug-Ins"@] })
            } else {
                Err("AAX plugins install to the system-wide Avid folder on macOS; use --scope=system"@)
            },
        },
        Platform::Windows => match format {
            PluginFormat::Clap => if system {
                Ok(Place { base: InstallBase::CommonProgramFiles, below: seq!["CLAP"@] })
            } else {
                Ok(Place { base: InstallBase::LocalAppData, below: seq!["Programs"@, "Common"@, "CLAP"@] })
            },
            PluginFormat::Vst3 => if system {
                Ok(Place { base: InstallBase::CommonProgramFiles, below: seq!["VST3"@] })
            } else {
                Ok(Place { base: InstallBase::LocalAppData, below: seq!["Programs"@, "Common"@, "VST3"@] })
            },
            PluginFormat::Au => Err("AU is not supported on Windows"@),
            PluginFormat::Aax => if system {
                Ok(Place { base: InstallBase::CommonProgramFiles, below: seq!["Avid"@, "Audio"@, "Plug-Ins"@] })
            } else {
                Err("AAX plugins install to the system-wide Avid folder on Windows; use --scope=system"@)
            },
        },
        Platform::Linux => match format {
            PluginFormat::Clap => if system {
                Ok(Place { base: InstallBase::Root, below: seq!["/usr/lib/clap"@] })
            } else {
                Ok(Place { base: InstallBase::Home, below: seq![".clap"@] })
            },
            PluginFormat::Vst3 => if system {
                Ok(Place { base: InstallBase::Root, below: seq!["/usr/lib/vst3"@] })
            } else {
                Ok(Place { base: InstallBase::Home, below: seq![".vst3"@] })
            },
            PluginFormat::Au => Err("AU is not supported on Linux"@),
            PluginFormat::Aax => Err("AAX is not supported on Linux"@),
        },
    }
}

/// Where a format is installed, or why it cannot be.
pub open spec fn install_place(
    platform: Platform,
    scope: InstallScope,
    format: PluginFormat,
) -> Result<Place, Seq<char>> {
    place_of(platform, resolved_scope(scope, format) == InstallScope::System, format)
}

fn place1(base: InstallBase, a: &'static str) -> (location: InstallLocation)
    ensures
        location@ == (Place { base, below: seq![a@] }),
{
    let mut below: Vec<&'static str> = Vec::new();
    below.push(a);
    let location = InstallLocation { base, below };
    assert(location@.below =~= seq![a@]);
    location
}

fn place3(base: InstallBase, a: &'static str, b: &'static str, c: &'static str) -> (location:
    InstallLocation)
    ensures
        location@ == (Place { base, below: seq![a@, b@, c@] }),
{
    let mut below: Vec<&'static str> = Vec::new();
    below.push(a);
    below.push(b);
    below.push(c);
    let location = InstallLocation { base, below };
    assert(location@.below =~= seq![a@, b@, c@]);
    location
}

/// Where a format is installed, or why it cannot be.
pub fn install_dir(platform: Platform, scope: InstallScope, format: PluginFormat) -> (result: Result<
    InstallLocation,
    &'static str,
>)
    ensures
        match result {
            Ok(location) => install_place(platform, scope, format) == Ok::<Place, Seq<char>>(
                location@,
            ),
            Err(message) => install_place(platform, scope, format) == Err::<Place, Seq<char>>(
                message@,
            ),
        },
{
    let system = effective_install_scope(scope, format) == InstallScope::System;
    match platform {
        Platform::Macos => match format {
            PluginFormat::Clap => if system {
                Ok(place1(InstallBase::Root, "/Library/Audio/Plug-Ins/CLAP"))
            } else {
                Ok(place1(InstallBase::Home, "Library/Audio/Plug-Ins/CLAP"))
            },
            PluginFormat::Vst3 => if system {
                Ok(place1(InstallBase::Root, "/Library/Audio/Plug-Ins/VST3"))
            } else {
                Ok(place1(InstallBase::Home, "Library/Audio/Plug-Ins/VST3"))
            },
            PluginFormat::Au => if system {
                Ok(place1(InstallBase::Root, "/Library/Audio/Plug-Ins/Components"))
            } else {
                Ok(place1(InstallBase::Home, "Library/Audio/Plug-Ins/Components"))
            },
            PluginFormat::Aax => if system {
                Ok(place1(InstallBase::Root, "/Library/Application Support/Avid/Audio/Plug-Ins"))
            } else {
                Err("AAX plugins install to the system-wide Avid folder on macOS; use --scope=system")
            },
        },
        Platform::Windows => match format {
            PluginFormat::Clap => if system {
                Ok(place1(InstallBase::CommonProgramFiles, "CLAP"))
            } else {
                Ok(place3(InstallBase::LocalAppData, "Programs", "Common", "CLAP"))
            },
            PluginFormat::Vst3 => if system {
                Ok(place1(InstallBase::CommonProgramFiles, "VST3"))
            } else {
                Ok(place3(InstallBase::LocalAppData, "Programs", "Common", "VST3"))
            },
            PluginFormat::Au => Err("AU is not supported on Windows"),
            PluginFormat::Aax => if system {
                Ok(place3(InstallBase::CommonProgramFiles, "Avid", "Audio", "Plug-Ins"))
            } else {
                Err("AAX plugins install to the system-wide Avid folder on Windows; use --scope=system")
            },
        },
        Platform::Linux => match format {
            PluginFormat::Clap => if system {
                Ok(place1(InstallBase::Root, "/usr/lib/clap"))
            } else {
                Ok(place1(InstallBase::Home, ".clap"))
            },
            PluginFormat::Vst3 => if system {
                Ok(place1(InstallBase::Root, "/usr/lib/vst3"))
            } else {
                Ok(place1(InstallBase::Home, ".vst3"))
            },
            PluginFormat::Au => Err("AU is not supported on Linux"),
            PluginFormat::Aax => Err("AAX is not supported on Linux"),
        },
    }
}

/// The scopes that an uninstall covers: by default both, except for a format that is only ever
/// installed for every user.
pub open spec fn covered_scopes(
    platform: Platform,
    scope: UninstallScope,
    format: PluginFormat,
) -> Seq<InstallScope> {
    match scope {
        UninstallScope::All => if format == PluginFormat::Aax && platform != Platform::Linux {
            seq![InstallScope::System]
        } else {
            seq![InstallScope::User, InstallScope::System]
        },
        UninstallScope::User => seq![InstallScope::User],
        UninstallScope::System => seq![InstallScope::System],
    }
}

/// The scopes that an uninstall covers.
pub fn uninstall_scopes(platform: Platform, scope: UninstallScope, format: PluginFormat) -> (scopes:
    Vec<InstallScope>)
    ensures
        scopes@ == covered_scopes(platform, scope, format),
{
    let mut scopes: Vec<InstallScope> = Vec::new();
    match scope {
        UninstallScope::All => {
            if !(format == PluginFormat::Aax && platform != Platform::Linux) {
                scopes.push(InstallScope::User);
            }
            scopes.push(InstallScope::System);
        },
        UninstallScope::User => {
            scopes.push(InstallScope::User);
        },
        UninstallScope::System => {
            scopes.push(InstallScope::System);
        },
    }
    assert(scopes@ =~= covered_scopes(platform, scope, format));
    scopes
}

/// The names of the AU bundles that each plugin of a product once had, of the first `n` plugins.
pub open spec fn product_components(metadata: PluginMetadata, n: int) -> Seq<Seq<char>>
    decreases n,
{
    if n <= 0 {
        Seq::empty()
    } else {
        product_components(metadata, n - 1).push(
            metadata.plugins@[n - 1].plugin_name@ + ".component"@,
        )
    }
}

/// The names of the bundles of a format that may be installed: the bundle of the product and,
/// for AU, those that each plugin once had.
pub open spec fn bundle_names(metadata: PluginMetadata, target: PluginTarget) -> Seq<Seq<char>> {
    match target {
        PluginTarget::Clap => seq![metadata.bundle_name@ + ".clap"@],
        PluginTarget::Vst3 => seq![metadata.bundle_name@ + ".vst3"@],
        PluginTarget::Aax => seq![metadata.bundle_name@ + ".aaxplugin"@],
        PluginTarget::Au => seq![metadata.bundle_name@ + ".component"@] + product_components(
            metadata,
            metadata.plugins@.len() as int,
        ),
    }
}

/// The names of the bundles of a format that may be installed.
pub fn installed_bundle_names(metadata: &PluginMetadata, target: PluginTarget) -> (names: Vec<
    String,
>)
    ensures
        texts(names@) == bundle_names(*metadata, target),
{
    let mut names: Vec<String> = Vec::new();
    match target {
        PluginTarget::Clap => {
            names.push(metadata.clap_bundle_name());
            assert(texts(names@) =~= bundle_names(*metadata, target));
        },
        PluginTarget::Vst3 => {
            names.push(metadata.vst3_bundle_name());
            assert(texts(names@) =~= bundle_names(*metadata, target));
        },
        PluginTarget::Aax => {
            names.push(metadata.aax_bundle_name());
            assert(texts(names@) =~= bundle_names(*metadata, target));
        },
        PluginTarget::Au => {
            names.push(metadata.au_bundle_name());
            let ghost first = texts(names@);
            assert(first =~= seq![metadata.bundle_name@ + ".component"@]);
            let mut i: usize = 0;
            assert(first + product_components(*metadata, 0) =~= first);
            while i < metadata.plugins.len()
                invariant
                    i <= metadata.plugins@.len(),
                    texts(names@) == first + product_components(*metadata, i as int),
                decreases metadata.plugins@.len() - i,
            {
                let ghost before = names@;
                names.push(join2(metadata.plugins[i].plugin_name.as_str(), ".component"));
                assert(texts(names@) =~= texts(before).push(names@.last()@));
                assert(texts(names@) =~= first + product_components(*metadata, i + 1));
                i += 1;
            }
        },
    }
    names
}

/// One place where a bundle may be installed.
#[derive(Debug)]
pub struct InstalledArtifact {
    pub location: InstallLocation,
    pub bundle_name: String,
}

/// What the places of a list are.
pub open spec fn artifacts_of(list: Seq<InstalledArtifact>) -> Seq<(Place, Seq<char>)> {
    Seq::new(list.len(), |i: int| (list[i].location@, list[i].bundle_name@))
}

/// The places below one directory.
pub open spec fn artifacts_at(place: Place, names: Seq<Seq<char>>) -> Seq<(Place, Seq<char>)> {
    Seq::new(names.len(), |i: int| (place, names[i]))
}

/// The places that the first `n` scopes cover, or why one of them has none.
pub open spec fn artifacts_in(
    platform: Platform,
    scopes: Seq<InstallScope>,
    format: PluginFormat,
    names: Seq<Seq<char>>,
    n: int,
) -> Result<Seq<(Place, Seq<char>)>, Seq<char>>
    decreases n,
{
    if n <= 0 {
        Ok(Seq::empty())
    } else {
        match artifacts_in(platform, scopes, format, names, n - 1) {
            Err(message) => Err(message),
            Ok(before) => match install_place(platform, scopes[n - 1], format) {
                Err(message) => Err(message),
                Ok(place) => Ok(before + artifacts_at(place, names)),
            },
        }
    }
}

/// Every place where a bundle of the target may be installed.
pub fn installed_artifacts(
    metadata: &PluginMetadata,
    platform: Platform,
    scope: UninstallScope,
    target: PluginTarget,
) -> (result: Result<Vec<InstalledArtifact>, &'static str>)
    ensures
        ({
            let scopes = covered_scopes(platform, scope, target.plugin_format());
            let expected = artifacts_in(
                platform,
                scopes,
                target.plugin_format(),
                bundle_names(*metadata, target),
                scopes.len() as int,
            );
            match result {
                Ok(list) => expected == Ok::<Seq<(Place, Seq<char>)>, Seq<char>>(
                    artifacts_of(list@),
                ),
                Err(message) => expected == Err::<Seq<(Place, Seq<char>)>, Seq<char>>(message@),
            }
        }),
{
    let format = target.format();
    let names = installed_bundle_names(metadata, target);
    let scopes = uninstall_scopes(platform, scope, format);
    let ghost all = texts(names@);
    let mut artifacts: Vec<InstalledArtifact> = Vec::new();
    let mut i: usize = 0;
    assert(artifacts_of(artifacts@) =~= Seq::<(Place, Seq<char>)>::empty());
    while i < scopes.len()
        invariant
            i <= scopes@.len(),
            all == texts(names@),
            all == bundle_names(*metadata, target),
            format == target.plugin_format(),
            scopes@ == covered_scopes(platform, scope, format),
            artifacts_in(platform, scopes@, format, all, i as int) == Ok::<
                Seq<(Place, Seq<char>)>,
                Seq<char>,
            >(artifacts_of(artifacts@)),
        decreases scopes@.len() - i,
    {
        if let Err(message) = install_dir(platform, scopes[i], format) {
            proof {
                lemma_error_stays(platform, scopes@, format, all, i + 1, scopes@.len() as int);
            }
            return Err(message);
        }
        let ghost before = artifacts_of(artifacts@);
        let mut k: usize = 0;
        let ghost place = install_place(platform, scopes@[i as int], format)->Ok_0;
        assert(before + artifacts_at(place, all).take(0) =~= before);
        while k < names.len()
            invariant
                k <= names@.len(),
                i < scopes@.len(),
                all == texts(names@),
                install_place(platform, scopes@[i as int], format) == Ok::<Place, Seq<char>>(place),
                artifacts_of(artifacts@) == before + artifacts_at(place, all).take(k as int),
            decreases names@.len() - k,
        {
            match install_dir(platform, scopes[i], format) {
                Ok(location) => {
                    let ghost list = artifacts@;
                    artifacts.push(
                        InstalledArtifact { location, bundle_name: names[k].clone() },
                    );
                    assert(artifacts_of(artifacts@) =~= artifacts_of(list).push(
                        (place, all[k as int]),
                    ));
                    assert(artifacts_at(place, all).take(k + 1) =~= artifacts_at(place, all).take(
                        k as int,
                    ).push((place, all[k as int])));
                },
                Err(_) => {},
            }
            k += 1;
        }
        assert(artifacts_at(place, all).take(k as int) =~= artifacts_at(place, all));
        i += 1;
    }
    Ok(artifacts)
}

proof fn lemma_error_stays(
    platform: Platform,
    scopes: Seq<InstallScope>,
    format: PluginFormat,
    names: Seq<Seq<char>>,
    n: int,
    m: int,
)
    requires
        0 <= n <= m,
        artifacts_in(platform, scopes, format, names, n) is Err,
    ensures
        artifacts_in(platform, scopes, format, names, m) == artifacts_in(
            platform,
            scopes,
            format,
            names,
            n,
        ),
    decreases m - n,
{
    if n < m {
        lemma_error_stays(platform, scopes, format, names, n, m - 1);
    }
}

/// What installs for a user or for every user is found again by an uninstall that covers both:
/// the place of every install that succeeds is among the scopes covered.
pub proof fn uninstall_covers_every_install(
    platform: Platform,
    scope: InstallScope,
    format: PluginFormat,
)
    requires
        install_place(platform, scope, format) is Ok,
    ensures
        covered_scopes(platform, UninstallScope::All, format).contains(
            resolved_scope(scope, format),
        ),
{
    let scopes = covered_scopes(platform, UninstallScope::All, format);
    let scope = resolved_scope(scope, format);
    if scopes.len() == 1 {
        assert(scopes[0] == scope);
    } else {
        assert(scopes[0] == InstallScope::User && scopes[1] == InstallScope::System);
    }
}

/// Where each format is installed for one user, by system: the folder of the format, below the
/// home directory or the local application data.
pub proof fn users_find_formats_where_hosts_look()
    ensures
        install_place(Platform::Linux, InstallScope::User, PluginFormat::Clap) == Ok::<_, Seq<char>>(
            Place { base: InstallBase::Home, below: seq![".clap"@] },
        ),
        install_place(Platform::Linux, InstallScope::User, PluginFormat::Vst3) == Ok::<_, Seq<char>>(
            Place { base: InstallBase::Home, below: seq![".vst3"@] },
        ),
        install_place(Platform::Macos, InstallScope::User, PluginFormat::Clap) == Ok::<_, Seq<char>>(
            Place { base: InstallBase::Home, below: seq!["Library/Audio/Plug-Ins/CLAP"@] },
        ),
        install_place(Platform::Macos, InstallScope::User, PluginFormat::Vst3) == Ok::<_, Seq<char>>(
            Place { base: InstallBase::Home, below: seq!["Library/Audio/Plug-Ins/VST3"@] },
        ),
        install_place(Platform::Macos, InstallScope::User, PluginFormat::Au) == Ok::<_, Seq<char>>(
            Place { base: InstallBase::Home, below: seq!["Library/Audio/Plug-Ins/Components"@] },
        ),
        install_place(Platform::Windows, InstallScope::User, PluginFormat::Clap) == Ok::<
            _,
            Seq<char>,
        >(
            Place {
                base: InstallBase::LocalAppData,
                below: seq!["Programs"@, "Common"@, "CLAP"@],
            },
        ),
        install_place(Platform::Windows, InstallScope::User, PluginFormat::Vst3) == Ok::<
            _,
            Seq<char>,
        >(
            Place {
                base: InstallBase::LocalAppData,
                below: seq!["Programs"@, "Common"@, "VST3"@],
            },
        ),
{
}

/// Where each format is installed for every user, by system: the folder of the format, below the
/// root or the program files that products share.
pub proof fn systems_hold_formats_where_hosts_look()
    ensures
        install_place(Platform::Linux, InstallScope::System, PluginFormat::Clap) == Ok::<
            _,
            Seq<char>,
        >(Place { base: InstallBase::Root, below: seq!["/usr/lib/clap"@] }),
        install_place(Platform::Linux, InstallScope::System, PluginFormat::Vst3) == Ok::<
            _,
            Seq<char>,
        >(Place { base: InstallBase::Root, below: seq!["/usr/lib/vst3"@] }),
        install_place(Platform::Macos, InstallScope::System, PluginFormat::Clap) == Ok::<
            _,
            Seq<char>,
        >(Place { base: InstallBase::Root, below: seq!["/Library/Audio/Plug-Ins/CLAP"@] }),
        install_place(Platform::Macos, InstallScope::System, PluginFormat::Vst3) == Ok::<
            _,
            Seq<char>,
        >(Place { base: InstallBase::Root, below: seq!["/Library/Audio/Plug-Ins/VST3"@] }),
        install_place(Platform::Macos, InstallScope::System, PluginFormat::Au) == Ok::<
            _,
            Seq<char>,
        >(Place { base: InstallBase::Root, below: seq!["/Library/Audio/Plug-Ins/Components"@] }),
        install_place(Platform::Macos, InstallScope::System, PluginFormat::Aax) == Ok::<
            _,
            Seq<char>,
        >(
            Place {
                base: InstallBase::Root,
                below: seq!["/Library/Application Support/Avid/Audio/Plug-Ins"@],
            },
        ),
        install_place(Platform::Windows, InstallScope::System, PluginFormat::Clap) == Ok::<
            _,
            Seq<char>,
        >(Place { base: InstallBase::CommonProgramFiles, below: seq!["CLAP"@] }),
        install_place(Platform::Windows, InstallScope::System, PluginFormat::Vst3) == Ok::<
            _,
            Seq<char>,
        >(Place { base: InstallBase::CommonProgramFiles, below: seq!["VST3"@] }),
        install_place(Platform::Windows, InstallScope::System, PluginFormat::Aax) == Ok::<
            _,
            Seq<char>,
        >(
            Place {
                base: InstallBase::CommonProgramFiles,
                below: seq!["Avid"@, "Audio"@, "Plug-Ins"@],
            },
        ),
{
}

/// Two formats that can be installed are installed in different places.
pub proof fn formats_are_installed_apart(
    platform: Platform,
    scope: InstallScope,
    other_scope: InstallScope,
    format: PluginFormat,
    other: PluginFormat,
)
    requires
        format != other,
        install_place(platform, scope, format) is Ok,
        install_place(platform, other_scope, other) is Ok,
    ensures
        install_place(platform, scope, format)->Ok_0 != install_place(
            platform,
            other_scope,
            other,
        )->Ok_0,
{
    lemma_places_differ(
        platform,
        resolved_scope(scope, format) == InstallScope::System,
        resolved_scope(other_scope, other) == InstallScope::System,
        format,
        other,
    );
}

/// The place of one user and that of every user differ, for each format that has both.
pub proof fn users_and_systems_are_installed_apart(platform: Platform, format: PluginFormat)
    requires
        install_place(platform, InstallScope::User, format) is Ok,
        install_place(platform, InstallScope::System, format) is Ok,
    ensures
        install_place(platform, InstallScope::User, format)->Ok_0 != install_place(
            platform,
            InstallScope::System,
            format,
        )->Ok_0,
        install_place(platform, InstallScope::User, format)->Ok_0.base == InstallBase::Home
            || install_place(platform, InstallScope::User, format)->Ok_0.base
            == InstallBase::LocalAppData,
        install_place(platform, InstallScope::System, format)->Ok_0.base == InstallBase::Root
            || install_place(platform, InstallScope::System, format)->Ok_0.base
            == InstallBase::CommonProgramFiles,
{
}

proof fn lemma_places_differ(
    platform: Platform,
    system: bool,
    other_system: bool,
    format: PluginFormat,
    other: PluginFormat,
)
    requires
        format != other,
        place_of(platform, system, format) is Ok,
        place_of(platform, other_system, other) is Ok,
    ensures
        place_of(platform, system, format)->Ok_0 != place_of(platform, other_system, other)->Ok_0,
{
    reveal_strlit(".clap");
    reveal_strlit(".vst3");
    reveal_strlit("/usr/lib/clap");
    reveal_strlit("/usr/lib/vst3");
    reveal_strlit("Library/Audio/Plug-Ins/CLAP");
    reveal_strlit("Library/Audio/Plug-Ins/VST3");
    reveal_strlit("Library/Audio/Plug-Ins/Components");
    reveal_strlit("/Library/Audio/Plug-Ins/CLAP");
    reveal_strlit("/Library/Audio/Plug-Ins/VST3");
    reveal_strlit("/Library/Audio/Plug-Ins/Components");
    reveal_strlit("/Library/Application Support/Avid/Audio/Plug-Ins");
    reveal_strlit("CLAP");
    reveal_strlit("VST3");
    reveal_strlit("Plug-Ins");
    let a = place_of(platform, system, format)->Ok_0;
    let b = place_of(platform, other_system, other)->Ok_0;
    let last = a.below.last();
    let other_last = b.below.last();
    if a == b {
        assert(last == other_last);
        assert(last.len() == other_last.len());
        if platform == Platform::Linux {
            assert(".clap"@[1] != ".vst3"@[1]);
            assert("/usr/lib/clap"@[9] != "/usr/lib/vst3"@[9]);
        } else if platform == Platform::Macos {
            assert("Library/Audio/Plug-Ins/CLAP"@[23] != "Library/Audio/Plug-Ins/VST3"@[23]);
            assert("/Library/Audio/Plug-Ins/CLAP"@[24] != "/Library/Audio/Plug-Ins/VST3"@[24]);
        } else {
            assert("CLAP"@[0] != "VST3"@[0]);
        }
        assert(false);
    }
}

/// Where a format cannot be installed: AU only where macOS is, AAX for no single user and not on
/// Linux. Every other format can be, on every system and for whomever.
pub proof fn formats_are_refused_where_no_host_looks(platform: Platform, scope: InstallScope)
    ensures
        install_place(platform, scope, PluginFormat::Clap) is Ok,
        install_place(platform, scope, PluginFormat::Vst3) is Ok,
        install_place(platform, scope, PluginFormat::Au) is Ok <==> platform == Platform::Macos,
        install_place(platform, scope, PluginFormat::Aax) is Ok <==> platform != Platform::Linux
            && scope != InstallScope::User,
{
}

/// Where nothing is said, AAX is installed for every user and any other format for one; what is
/// said is what counts.
pub proof fn scopes_are_taken_as_they_are_said(platform: Platform, format: PluginFormat)
    ensures
        format == PluginFormat::Aax ==> install_place(platform, InstallScope::Default, format)
            == install_place(platform, InstallScope::System, format),
        format != PluginFormat::Aax ==> install_place(platform, InstallScope::Default, format)
            == install_place(platform, InstallScope::User, format),
        resolved_scope(InstallScope::User, format) == InstallScope::User,
        resolved_scope(InstallScope::System, format) == InstallScope::System,
{
}

/// An uninstall for one user covers that user alone, one for the system every user, and one of
/// all covers both, save where a format is never installed for one user.
pub proof fn uninstalls_cover_what_they_are_asked_for(platform: Platform, format: PluginFormat)
    ensures
        covered_scopes(platform, UninstallScope::User, format) == seq![InstallScope::User],
        covered_scopes(platform, UninstallScope::System, format) == seq![InstallScope::System],
        covered_scopes(platform, UninstallScope::All, format).contains(InstallScope::System),
        covered_scopes(platform, UninstallScope::All, format).contains(InstallScope::User) <==> !(
        format == PluginFormat::Aax && platform != Platform::Linux),
        !covered_scopes(platform, UninstallScope::All, format).contains(InstallScope::Default),
        covered_scopes(platform, UninstallScope::All, format).no_duplicates(),
{
    let all = covered_scopes(platform, UninstallScope::All, format);
    if format == PluginFormat::Aax && platform != Platform::Linux {
        assert(all[0] == InstallScope::System);
    } else {
        assert(all[0] == InstallScope::User);
        assert(all[1] == InstallScope::System);
    }
}

/// A bundle has the name of the product and the ending of its format. An AU product may besides
/// have one for each plugin, under the name of the plugin; no other format has more than one.
pub proof fn bundles_are_named_after_the_product(metadata: PluginMetadata, i: int)
    ensures
        bundle_names(metadata, PluginTarget::Clap) == seq![metadata.bundle_name@ + ".clap"@],
        bundle_names(metadata, PluginTarget::Vst3) == seq![metadata.bundle_name@ + ".vst3"@],
        bundle_names(metadata, PluginTarget::Aax) == seq![metadata.bundle_name@ + ".aaxplugin"@],
        bundle_names(metadata, PluginTarget::Au).len() == metadata.plugins@.len() + 1,
        bundle_names(metadata, PluginTarget::Au)[0] == metadata.bundle_name@ + ".component"@,
        0 <= i < metadata.plugins@.len() ==> bundle_names(metadata, PluginTarget::Au)[i + 1]
            == metadata.plugins@[i].plugin_name@ + ".component"@,
{
    lemma_components(metadata, metadata.plugins@.len() as int, i);
}

proof fn lemma_components(metadata: PluginMetadata, n: int, i: int)
    requires
        0 <= n <= metadata.plugins@.len(),
    ensures
        product_components(metadata, n).len() == n,
        0 <= i < n ==> product_components(metadata, n)[i] == metadata.plugins@[i].plugin_name@
            + ".component"@,
    decreases n,
{
    if n > 0 {
        lemma_components(metadata, n - 1, i);
    }
}

/// What an uninstall looks for is every name in the place of every scope that is covered: each
/// name in each such place is looked for, and no more than these are. It fails only where one of
/// the scopes has no place.
pub proof fn uninstalls_look_everywhere(
    platform: Platform,
    scopes: Seq<InstallScope>,
    format: PluginFormat,
    names: Seq<Seq<char>>,
    scope: int,
    name: int,
)
    requires
        0 <= scope < scopes.len(),
        0 <= name < names.len(),
    ensures
        ({
            let found = artifacts_in(platform, scopes, format, names, scopes.len() as int);
            &&& found is Err <==> exists|i: int|
                0 <= i < scopes.len() && install_place(platform, #[trigger] scopes[i], format) is Err
            &&& found is Ok ==> {
                &&& install_place(platform, scopes[scope], format) is Ok
                &&& found->Ok_0.contains(
                    (install_place(platform, scopes[scope], format)->Ok_0, names[name]),
                )
                &&& found->Ok_0.len() == scopes.len() * names.len()
            }
        }),
{
    lemma_artifacts(platform, scopes, format, names, scopes.len() as int, scope, name);
}

proof fn lemma_artifacts(
    platform: Platform,
    scopes: Seq<InstallScope>,
    format: PluginFormat,
    names: Seq<Seq<char>>,
    n: int,
    scope: int,
    name: int,
)
    requires
        0 <= n <= scopes.len(),
        0 <= name < names.len(),
    ensures
        ({
            let found = artifacts_in(platform, scopes, format, names, n);
            &&& found is Err <==> exists|i: int|
                0 <= i < n && install_place(platform, #[trigger] scopes[i], format) is Err
            &&& found is Ok ==> found->Ok_0.len() == n * names.len()
            &&& found is Ok && 0 <= scope < n ==> found->Ok_0.contains(
                (install_place(platform, scopes[scope], format)->Ok_0, names[name]),
            )
        }),
    decreases n,
{
    if n > 0 {
        lemma_artifacts(platform, scopes, format, names, n - 1, scope, name);
        let before = artifacts_in(platform, scopes, format, names, n - 1);
        let found = artifacts_in(platform, scopes, format, names, n);
        assert((n - 1) * names.len() + names.len() == n * names.len()) by (nonlinear_arith);
        if found is Err && before is Ok {
            assert(install_place(platform, scopes[n - 1], format) is Err);
        }
        if found is Ok && 0 <= scope < n {
            let place = install_place(platform, scopes[n - 1], format)->Ok_0;
            let wanted = (install_place(platform, scopes[scope], format)->Ok_0, names[name]);
            if scope == n - 1 {
                assert(found->Ok_0[before->Ok_0.len() + name] == (place, names[name]));
            } else {
                let k = choose|k: int|
                    0 <= k < before->Ok_0.len() && before->Ok_0[k] == wanted;
                assert(found->Ok_0[k] == wanted);
            }
        }
    }
}

// Launching

/// Whether the plugin at `i` has the id `plugin_id`.
pub open spec fn has_id(metadata: PluginMetadata, plugin_id: Seq<char>, i: int) -> bool {
    0 <= i < metadata.plugins@.len() && metadata.plugins@[i].plugin_id@ == plugin_id
}

/// Whether the plugin at `i` is the first one with the id `plugin_id`.
pub open spec fn is_first_with_id(metadata: PluginMetadata, plugin_id: Seq<char>, i: int) -> bool {
    has_id(metadata, plugin_id, i) && forall|j: int|
        0 <= j < i ==> !#[trigger] has_id(metadata, plugin_id, j)
}

/// The ids of the plugins of a product.
pub open spec fn plugin_ids(metadata: PluginMetadata) -> Seq<Seq<char>> {
    Seq::new(metadata.plugins@.len(), |i: int| metadata.plugins@[i].plugin_id@)
}

/// The plugin whose standalone is launched: the first one with the id that was asked for, or
/// the only one where none was asked for.
pub fn standalone_plugin_to_launch<'a>(
    metadata: &'a PluginMetadata,
    plugin_id: Option<&str>,
) -> (result: Result<&'a PluginProductMetadata, String>)
    ensures
        match plugin_id {
            Some(id) => match result {
                Ok(plugin) => exists|i: int|
                    #[trigger] is_first_with_id(*metadata, id@, i) && *plugin
                        == metadata.plugins@[i],
                Err(message) => {
                    &&& forall|i: int| !has_id(*metadata, id@, i)
                    &&& message@ == "plugin ID not found in WRAC metadata: "@ + id@
                },
            },
            None => match result {
                Ok(plugin) => metadata.plugins@.len() == 1 && *plugin == metadata.plugins@[0],
                Err(message) => {
                    &&& metadata.plugins@.len() != 1
                    &&& message@ == "multiple plugin products found: "@ + joined(
                        plugin_ids(*metadata),
                        ", "@,
                    ) + ". Use --plugin-id <PLUGIN_ID>."@
                },
            },
        },
{
    if let Some(id) = plugin_id {
        let mut i: usize = 0;
        while i < metadata.plugins.len()
            invariant
                i <= metadata.plugins@.len(),
                plugin_id == Some(id),
                forall|j: int| 0 <= j < i ==> !has_id(*metadata, id@, j),
            decreases metadata.plugins@.len() - i,
        {
            if same_text(metadata.plugins[i].plugin_id.as_str(), id) {
                let plugin = &metadata.plugins[i];
                assert(*plugin == metadata.plugins@[i as int]);
                assert(plugin_id->Some_0@ == id@);
                assert(is_first_with_id(*metadata, plugin_id->Some_0@, i as int));
                return Ok(plugin);
            }
            i += 1;
        }
        return Err(join2("plugin ID not found in WRAC metadata: ", id));
    }
    if metadata.plugins.len() == 1 {
        return Ok(&metadata.plugins[0]);
    }
    let mut ids: Vec<String> = Vec::new();
    let mut i: usize = 0;
    while i < metadata.plugins.len()
        invariant
            i <= metadata.plugins@.len(),
            ids@.len() == i,
            forall|j: int| 0 <= j < i ==> #[trigger] ids@[j]@ == plugin_ids(*metadata)[j],
        decreases metadata.plugins@.len() - i,
    {
        ids.push(metadata.plugins[i].plugin_id.clone());
        i += 1;
    }
    assert(texts(ids@) =~= plugin_ids(*metadata));
    Err(
        join3(
            "multiple plugin products found: ",
            join(&ids, ", ").as_str(),
            ". Use --plugin-id <PLUGIN_ID>.",
        ),
    )
}

/// Formats are installed, looked for and removed in the places that the laws above speak of.
pub proof fn installs_and_uninstalls_keep_to_their_places(
    platform: Platform,
    scope: InstallScope,
    format: PluginFormat,
    resolved: InstallScope,
    place: Result<InstallLocation, &'static str>,
    uninstall: UninstallScope,
    scopes: Vec<InstallScope>,
    metadata: PluginMetadata,
    target: PluginTarget,
    names: Vec<String>,
)
    requires
        call_ensures(effective_install_scope, (scope, format), resolved),
        call_ensures(install_dir, (platform, scope, format), place),
        call_ensures(uninstall_scopes, (platform, uninstall, format), scopes),
        call_ensures(installed_bundle_names, (&metadata, target), names),
    ensures
        resolved == resolved_scope(scope, format),
        place is Ok <==> install_place(platform, scope, format) is Ok,
        place matches Ok(location) ==> location@ == install_place(platform, scope, format)->Ok_0,
        place matches Err(message) ==> message@ == install_place(platform, scope, format)->Err_0,
        scopes@ == covered_scopes(platform, uninstall, format),
        texts(names@) == bundle_names(metadata, target),
        scope is User || scope is System ==> resolved == scope,
        scope is Default ==> resolved == if format is Aax {
            InstallScope::System
        } else {
            InstallScope::User
        },
{
}

/// What an uninstall finds is each bundle of the product in each place where it could have been
/// installed.
pub proof fn uninstalls_find_what_was_installed(
    metadata: PluginMetadata,
    platform: Platform,
    scope: UninstallScope,
    target: PluginTarget,
    result: Result<Vec<InstalledArtifact>, &'static str>,
    at: int,
    name: int,
)
    requires
        call_ensures(installed_artifacts, (&metadata, platform, scope, target), result),
        0 <= at < covered_scopes(platform, scope, target.plugin_format()).len(),
        0 <= name < bundle_names(metadata, target).len(),
    ensures
        ({
            let scopes = covered_scopes(platform, scope, target.plugin_format());
            let names = bundle_names(metadata, target);
            result matches Ok(list) ==> artifacts_of(list@).contains(
                (install_place(platform, scopes[at], target.plugin_format())->Ok_0, names[name]),
            ) && artifacts_of(list@).len() == scopes.len() * names.len()
        }),
{
    let scopes = covered_scopes(platform, scope, target.plugin_format());
    let names = bundle_names(metadata, target);
    uninstalls_look_everywhere(platform, scopes, target.plugin_format(), names, at, name);
}

/// A plugin is launched by its id, and without one where it is the only one.
pub proof fn plugins_are_launched_by_id(
    metadata: PluginMetadata,
    id: &str,
    named: Result<&PluginProductMetadata, String>,
    only: Result<&PluginProductMetadata, String>,
)
    requires
        call_ensures(standalone_plugin_to_launch, (&metadata, Some(id)), named),
        call_ensures(standalone_plugin_to_launch, (&metadata, None), only),
    ensures
        named is Ok <==> exists|i: int|
            0 <= i < metadata.plugins@.len() && (#[trigger] metadata.plugins@[i]).plugin_id@ == id@,
        named matches Ok(plugin) ==> plugin.plugin_id@ == id@,
        named matches Err(message) ==> message@ == "plugin ID not found in WRAC metadata: "@ + id@,
        only is Ok <==> metadata.plugins@.len() == 1,
        only matches Ok(plugin) ==> *plugin == metadata.plugins@[0],
{
    if let Ok(plugin) = named {
        let i = choose|i: int|
            #[trigger] is_first_with_id(metadata, id@, i) && *plugin == metadata.plugins@[i];
        assert(has_id(metadata, id@, i));
        assert(metadata.plugins@[i].plugin_id@ == id@);
    } else {
        assert forall|i: int| 0 <= i < metadata.plugins@.len() implies (
        #[trigger] metadata.plugins@[i]).plugin_id@ != id@ by {
            assert(!has_id(metadata, id@, i));
        }
    }
}

} // verus!
