//! What is packaged, and the tools that check it.

use vstd::prelude::*;

use crate::text::{join3, lemma_parts_occur, occurs_in, texts};
use crate::wrac_xtask::metadata::{PluginMetadata, PluginProductMetadata};
use crate::wrac_xtask::targets::Platform;

verus! {

// The frontend

/// The text that a JSON document holds under a key of an object under a key: the document's
/// error where it is none, and nothing where there are no such objects and keys or no text
/// there.
pub uninterp spec fn json_nested_text(
    content: Seq<u8>,
    outer: Seq<char>,
    key: Seq<char>,
) -> Result<Option<Seq<char>>, Seq<char>>;

/// Reads `content` by `serde_json::from_slice` and looks the two keys up by `Value::get`,
/// `Value::as_object` and `Value::as_str`. The claim is that the outcome depends on the bytes
/// and the keys alone.
#[verifier::external_body]
fn read_json_nested_text(content: &[u8], outer: &str, key: &str) -> (result: Result<
    Option<String>,
    String,
>)
    ensures
        match result {
            Ok(Some(text)) => json_nested_text(content@, outer@, key@) == Ok::<
                Option<Seq<char>>,
                Seq<char>,
            >(Some(text@)),
            Ok(None) => json_nested_text(content@, outer@, key@) == Ok::<
                Option<Seq<char>>,
                Seq<char>,
            >(None),
            Err(error) => json_nested_text(content@, outer@, key@) == Err::<
                Option<Seq<char>>,
                Seq<char>,
            >(error@),
        },
{
    let json: serde_json::Value =
        serde_json::from_slice(content).map_err(|error| error.to_string())?;
    let members = json.get(outer).and_then(serde_json::Value::as_object);
    let value = members.and_then(|members| members.get(key));
    Ok(value.and_then(serde_json::Value::as_str).map(str::to_string))
}

/// Whether a package manifest has a script of this name, or why the manifest cannot be read.
pub fn has_package_script(package_json: &[u8], script: &str) -> (result: Result<bool, String>)
    ensures
        match result {
            Ok(found) => json_nested_text(package_json@, "scripts"@, script@) matches Ok(text)
                && found == (text is Some),
            Err(message) => json_nested_text(package_json@, "scripts"@, script@) == Err::<
                Option<Seq<char>>,
                Seq<char>,
            >(message@),
        },
{
    match read_json_nested_text(package_json, "scripts", script) {
        Ok(text) => Ok(text.is_some()),
        Err(message) => Err(message),
    }
}

/// The command that runs the package manager of the frontend.
pub fn pnpm_command(platform: Platform) -> (command: &'static str)
    ensures
        command@ == if platform == Platform::Windows {
            "pnpm.cmd"@
        } else {
            "pnpm"@
        },
{
    if platform == Platform::Windows {
        "pnpm.cmd"
    } else {
        "pnpm"
    }
}

// The CLAP bundle on macOS

pub const PLIST_HEAD: &'static str = "<?xml version=\"1.0\" encoding=\"UTF-8\"?>
<!DOCTYPE plist PUBLIC \"-//Apple//DTD PLIST 1.0//EN\" \"http://www.apple.com/DTDs/PropertyList-1.0.dtd\">
<plist>
  <dict>
    <key>CFBundleExecutable</key>
    <string>";

pub const PLIST_AFTER_EXECUTABLE: &'static str = "</string>
    <key>CFBundleIconFile</key>
    <string></string>
    <key>CFBundleIdentifier</key>
    <string>";

pub const PLIST_AFTER_IDENTIFIER: &'static str = "</string>
    <key>CFBundleName</key>
    <string>";

pub const PLIST_AFTER_NAME: &'static str = "</string>
    <key>CFBundleDisplayName</key>
    <string>";

pub const PLIST_AFTER_DISPLAY_NAME: &'static str = "</string>
    <key>CFBundlePackageType</key>
    <string>BNDL</string>
    <key>CFBundleSignature</key>
    <string>????</string>
    <key>CFBundleShortVersionString</key>
    <string>";

pub const PLIST_AFTER_SHORT_VERSION: &'static str = "</string>
    <key>CFBundleVersion</key>
    <string>";

pub const PLIST_AFTER_VERSION: &'static str = "</string>
    <key>NSHumanReadableCopyright</key>
    <string>";

pub const PLIST_TAIL: &'static str = "</string>
    <key>NSHighResolutionCapable</key>
    <true/>
  </dict>
</plist>
";

/// The property list of a CLAP bundle.
pub open spec fn clap_plist(
    name: Seq<char>,
    identifier: Seq<char>,
    version: Seq<char>,
    copyright: Seq<char>,
) -> Seq<char> {
    PLIST_HEAD@ + name + PLIST_AFTER_EXECUTABLE@ + identifier + PLIST_AFTER_IDENTIFIER@ + name + PLIST_AFTER_NAME@ + name + PLIST_AFTER_DISPLAY_NAME@ + version + PLIST_AFTER_SHORT_VERSION@ + version + PLIST_AFTER_VERSION@ + copyright + PLIST_TAIL@
}

/// The property list of a CLAP bundle.
pub fn write_plist(name: &str, identifier: &str, version: &str, copyright: &str) -> (plist: String)
    ensures
        plist@ == clap_plist(name@, identifier@, version@, copyright@),
{
    let mut plist = PLIST_HEAD.to_owned();
    plist.append(name);
    plist.append(PLIST_AFTER_EXECUTABLE);
    plist.append(identifier);
    plist.append(PLIST_AFTER_IDENTIFIER);
    plist.append(name);
    plist.append(PLIST_AFTER_NAME);
    plist.append(name);
    plist.append(PLIST_AFTER_DISPLAY_NAME);
    plist.append(version);
    plist.append(PLIST_AFTER_SHORT_VERSION);
    plist.append(version);
    plist.append(PLIST_AFTER_VERSION);
    plist.append(copyright);
    plist.append(PLIST_TAIL);
    plist
}

/// The property list of the product's CLAP bundle. The bundle has one identifier, however many
/// plugins it holds.
pub fn macos_clap_info_plist(metadata: &PluginMetadata) -> (plist: String)
    ensures
        plist@ == clap_plist(
            metadata.bundle_name@,
            metadata.bundle_identifier@,
            metadata.version@,
            metadata.copyright@,
        ),
{
    write_plist(
        metadata.bundle_name.as_str(),
        metadata.bundle_identifier.as_str(),
        metadata.version.as_str(),
        metadata.copyright.as_str(),
    )
}

// The CLAP validator

pub const CLAP_VALIDATOR_VERSION: &'static str = "0.3.2";

/// The archive that holds the CLAP validator.
pub open spec fn clap_validator_archive(platform: Platform) -> Seq<char> {
    match platform {
        Platform::Macos => "clap-validator-0.3.2-macos-universal.tar.gz"@,
        Platform::Windows => "clap-validator-0.3.2-windows.zip"@,
        Platform::Linux => "clap-validator-0.3.2-ubuntu-18.04.tar.gz"@,
    }
}

/// The archive that holds the CLAP validator.
pub fn clap_validator_archive_name(platform: Platform) -> (name: &'static str)
    ensures
        name@ == clap_validator_archive(platform),
{
    match platform {
        Platform::Macos => "clap-validator-0.3.2-macos-universal.tar.gz",
        Platform::Windows => "clap-validator-0.3.2-windows.zip",
        Platform::Linux => "clap-validator-0.3.2-ubuntu-18.04.tar.gz",
    }
}

/// Where the archive of the CLAP validator can be had.
pub fn clap_validator_url(platform: Platform) -> (url: String)
    ensures
        url@ == "https://github.com/free-audio/clap-validator/releases/download/"@
            + CLAP_VALIDATOR_VERSION@ + "/"@ + clap_validator_archive(platform),
{
    let mut url = join3(
        "https://github.com/free-audio/clap-validator/releases/download/",
        CLAP_VALIDATOR_VERSION,
        "/",
    );
    url.append(clap_validator_archive_name(platform));
    url
}

/// Where the CLAP validator stands below the directory of its archive, step by step.
pub open spec fn clap_validator_path(platform: Platform) -> Seq<Seq<char>> {
    match platform {
        Platform::Macos => seq!["binaries"@, "clap-validator"@],
        Platform::Windows => seq!["clap-validator.exe"@],
        Platform::Linux => seq!["clap-validator"@],
    }
}

/// Where the CLAP validator stands below the directory of its archive.
pub fn clap_validator_executable(platform: Platform) -> (below: Vec<String>)
    ensures
        texts(below@) == clap_validator_path(platform),
{
    let mut below: Vec<String> = Vec::new();
    match platform {
        Platform::Macos => {
            below.push("binaries".to_owned());
            below.push("clap-validator".to_owned());
        },
        Platform::Windows => {
            below.push("clap-validator.exe".to_owned());
        },
        Platform::Linux => {
            below.push("clap-validator".to_owned());
        },
    }
    assert(texts(below@) =~= clap_validator_path(platform));
    below
}

/// The arguments of the CLAP validator. A filter names the tests that are left out.
pub fn clap_validator_args(metadata: &PluginMetadata, bundle: &str) -> (args: Vec<String>)
    ensures
        texts(args@) == seq!["validate"@, bundle@, "--only-failed"@] + match metadata.validation.clap_validator.skip_test_filter {
            Some(filter) => seq!["--test-filter"@, filter@, "--invert-filter"@],
            None => Seq::empty(),
        },
{
    let mut args: Vec<String> = Vec::new();
    args.push("validate".to_owned());
    args.push(bundle.to_owned());
    args.push("--only-failed".to_owned());
    if let Some(filter) = &metadata.validation.clap_validator.skip_test_filter {
        args.push("--test-filter".to_owned());
        args.push(filter.clone());
        args.push("--invert-filter".to_owned());
    }
    assert(texts(args@) =~= seq!["validate"@, bundle@, "--only-failed"@]
        + match metadata.validation.clap_validator.skip_test_filter {
        Some(filter) => seq!["--test-filter"@, filter@, "--invert-filter"@],
        None => Seq::empty(),
    });
    args
}

// The AU validator

/// The arguments by which the AU validator is told which plugin to look at.
pub fn auval_args(metadata: &PluginMetadata, plugin: &PluginProductMetadata) -> (args: Vec<String>)
    ensures
        texts(args@) == seq![
            "-v"@,
            plugin.auv2_type@,
            plugin.auv2_subtype@,
            metadata.auv2_manufacturer_code@,
        ],
{
    let mut args: Vec<String> = Vec::new();
    args.push("-v".to_owned());
    args.push(plugin.auv2_type.clone());
    args.push(plugin.auv2_subtype.clone());
    args.push(metadata.auv2_manufacturer_code.clone());
    assert(texts(args@) =~= seq![args@[0]@, args@[1]@, args@[2]@, args@[3]@]);
    args
}

/// A system-wide bundle that the AU validator could take for the one that was built.
#[derive(Debug)]
pub struct SystemComponent {
    pub path: String,
    pub exists: bool,
}

/// The error of the first system-wide bundle from position `i` on that exists.
pub open spec fn au_conflict(components: Seq<SystemComponent>, i: int) -> Option<Seq<char>>
    decreases components.len() - i,
{
    if i < 0 || i >= components.len() {
        None
    } else if components[i].exists {
        Some(
            "system-wide AU already exists at "@ + components[i].path@
                + ". auval may validate that copy instead of the freshly built user-local AU. Remove the system-wide component and run validation again."@,
        )
    } else {
        au_conflict(components, i + 1)
    }
}

/// Refuses to validate while a system-wide bundle could be taken for the one that was built.
pub fn ensure_no_system_au_conflict(components: &Vec<SystemComponent>) -> (result: Result<
    (),
    String,
>)
    ensures
        crate::text::error_of(result) == au_conflict(components@, 0),
{
    let mut i: usize = 0;
    while i < components.len()
        invariant
            i <= components@.len(),
            au_conflict(components@, 0) == au_conflict(components@, i as int),
        decreases components@.len() - i,
    {
        if components[i].exists {
            return Err(
                join3(
                    "system-wide AU already exists at ",
                    components[i].path.as_str(),
                    ". auval may validate that copy instead of the freshly built user-local AU. Remove the system-wide component and run validation again.",
                ),
            );
        }
        i += 1;
    }
    Ok(())
}

/// A script is there exactly where the manifest holds a text under its name among the scripts; a
/// manifest that cannot be read has neither.
pub proof fn scripts_are_found_by_name(
    package_json: &[u8],
    script: &str,
    result: Result<bool, String>,
)
    requires
        call_ensures(has_package_script, (package_json, script), result),
    ensures
        result is Ok <==> json_nested_text(package_json@, "scripts"@, script@) is Ok,
        result matches Ok(found) ==> (found <==> json_nested_text(
            package_json@,
            "scripts"@,
            script@,
        )->Ok_0 is Some),
{
}

/// The package manager has its own name on Windows and the common one elsewhere.
pub proof fn package_managers_are_named_by_system(platform: Platform, command: &str)
    requires
        call_ensures(pnpm_command, (platform,), command),
    ensures
        platform is Windows ==> command@ == "pnpm.cmd"@,
        !(platform is Windows) ==> command@ == "pnpm"@,
{
}

/// The property list of a bundle holds each text of the product under the key that systems look
/// for it.
pub proof fn bundles_tell_what_they_are(metadata: PluginMetadata, plist: String)
    requires
        call_ensures(macos_clap_info_plist, (&metadata,), plist),
    ensures
        occurs_in(
            "<key>CFBundleIdentifier</key>\n    <string>"@ + metadata.bundle_identifier@
                + "</string>"@,
            plist@,
        ),
        occurs_in(
            "<key>CFBundleName</key>\n    <string>"@ + metadata.bundle_name@ + "</string>"@,
            plist@,
        ),
        occurs_in(
            "<key>CFBundleDisplayName</key>\n    <string>"@ + metadata.bundle_name@ + "</string>"@,
            plist@,
        ),
        occurs_in(
            "<key>CFBundleShortVersionString</key>\n    <string>"@ + metadata.version@
                + "</string>"@,
            plist@,
        ),
        occurs_in(
            "<key>CFBundleVersion</key>\n    <string>"@ + metadata.version@ + "</string>"@,
            plist@,
        ),
        occurs_in(
            "<key>NSHumanReadableCopyright</key>\n    <string>"@ + metadata.copyright@
                + "</string>"@,
            plist@,
        ),
        occurs_in(PLIST_HEAD@ + metadata.bundle_name@ + "</string>"@, plist@),
{
    let name = metadata.bundle_name@;
    let identifier = metadata.bundle_identifier@;
    let version = metadata.version@;
    let copyright = metadata.copyright@;
    let list = plist@;
    let at1 = PLIST_HEAD@.len() + name.len();
    let at2 = at1 + PLIST_AFTER_EXECUTABLE@.len() + identifier.len();
    let at3 = at2 + PLIST_AFTER_IDENTIFIER@.len() + name.len();
    let at4 = at3 + PLIST_AFTER_NAME@.len() + name.len();
    let at5 = at4 + PLIST_AFTER_DISPLAY_NAME@.len() + version.len();
    let at6 = at5 + PLIST_AFTER_SHORT_VERSION@.len() + version.len();
    lemma_plist_parts();
    assert(PLIST_HEAD@.skip(0) =~= PLIST_HEAD@);
    assert(list.subrange(0int, 0int + PLIST_HEAD@.len() + name.len() + PLIST_AFTER_EXECUTABLE@.len()) =~= PLIST_HEAD@
        + name + PLIST_AFTER_EXECUTABLE@);
    lemma_parts_occur(
        list,
        0int,
        PLIST_HEAD@,
        name,
        PLIST_AFTER_EXECUTABLE@,
        PLIST_HEAD@,
        "</string>"@,
    );
    assert(list.subrange(at1 as int, at1 as int + PLIST_AFTER_EXECUTABLE@.len() + identifier.len() + PLIST_AFTER_IDENTIFIER@.len()) =~= PLIST_AFTER_EXECUTABLE@
        + identifier + PLIST_AFTER_IDENTIFIER@);
    lemma_parts_occur(
        list,
        at1 as int,
        PLIST_AFTER_EXECUTABLE@,
        identifier,
        PLIST_AFTER_IDENTIFIER@,
        "<key>CFBundleIdentifier</key>\n    <string>"@,
        "</string>"@,
    );
    assert(list.subrange(at2 as int, at2 as int + PLIST_AFTER_IDENTIFIER@.len() + name.len() + PLIST_AFTER_NAME@.len()) =~= PLIST_AFTER_IDENTIFIER@
        + name + PLIST_AFTER_NAME@);
    lemma_parts_occur(
        list,
        at2 as int,
        PLIST_AFTER_IDENTIFIER@,
        name,
        PLIST_AFTER_NAME@,
        "<key>CFBundleName</key>\n    <string>"@,
        "</string>"@,
    );
    assert(list.subrange(at3 as int, at3 as int + PLIST_AFTER_NAME@.len() + name.len() + PLIST_AFTER_DISPLAY_NAME@.len()) =~= PLIST_AFTER_NAME@
        + name + PLIST_AFTER_DISPLAY_NAME@);
    lemma_parts_occur(
        list,
        at3 as int,
        PLIST_AFTER_NAME@,
        name,
        PLIST_AFTER_DISPLAY_NAME@,
        "<key>CFBundleDisplayName</key>\n    <string>"@,
        "</string>"@,
    );
    assert(list.subrange(at4 as int, at4 as int + PLIST_AFTER_DISPLAY_NAME@.len() + version.len() + PLIST_AFTER_SHORT_VERSION@.len()) =~= PLIST_AFTER_DISPLAY_NAME@
        + version + PLIST_AFTER_SHORT_VERSION@);
    lemma_parts_occur(
        list,
        at4 as int,
        PLIST_AFTER_DISPLAY_NAME@,
        version,
        PLIST_AFTER_SHORT_VERSION@,
        "<key>CFBundleShortVersionString</key>\n    <string>"@,
        "</string>"@,
    );
    assert(list.subrange(at5 as int, at5 as int + PLIST_AFTER_SHORT_VERSION@.len() + version.len() + PLIST_AFTER_VERSION@.len()) =~= PLIST_AFTER_SHORT_VERSION@
        + version + PLIST_AFTER_VERSION@);
    lemma_parts_occur(
        list,
        at5 as int,
        PLIST_AFTER_SHORT_VERSION@,
        version,
        PLIST_AFTER_VERSION@,
        "<key>CFBundleVersion</key>\n    <string>"@,
        "</string>"@,
    );
    assert(list.subrange(at6 as int, at6 as int + PLIST_AFTER_VERSION@.len() + copyright.len() + PLIST_TAIL@.len()) =~= PLIST_AFTER_VERSION@
        + copyright + PLIST_TAIL@);
    lemma_parts_occur(
        list,
        at6 as int,
        PLIST_AFTER_VERSION@,
        copyright,
        PLIST_TAIL@,
        "<key>NSHumanReadableCopyright</key>\n    <string>"@,
        "</string>"@,
    );
}

proof fn lemma_plist_parts()
    ensures
        "</string>"@.len() == 9,
        PLIST_AFTER_EXECUTABLE@.take(9) == "</string>"@,
        PLIST_AFTER_EXECUTABLE@.len() >= 9,
        "<key>CFBundleIdentifier</key>\n    <string>"@.len() == 42,
        PLIST_AFTER_EXECUTABLE@.len() >= 42,
        PLIST_AFTER_EXECUTABLE@.skip(PLIST_AFTER_EXECUTABLE@.len() - 42) == "<key>CFBundleIdentifier</key>\n    <string>"@,
        PLIST_AFTER_IDENTIFIER@.take(9) == "</string>"@,
        PLIST_AFTER_IDENTIFIER@.len() >= 9,
        "<key>CFBundleName</key>\n    <string>"@.len() == 36,
        PLIST_AFTER_IDENTIFIER@.len() >= 36,
        PLIST_AFTER_IDENTIFIER@.skip(PLIST_AFTER_IDENTIFIER@.len() - 36) == "<key>CFBundleName</key>\n    <string>"@,
        PLIST_AFTER_NAME@.take(9) == "</string>"@,
        PLIST_AFTER_NAME@.len() >= 9,
        "<key>CFBundleDisplayName</key>\n    <string>"@.len() == 43,
        PLIST_AFTER_NAME@.len() >= 43,
        PLIST_AFTER_NAME@.skip(PLIST_AFTER_NAME@.len() - 43) == "<key>CFBundleDisplayName</key>\n    <string>"@,
        PLIST_AFTER_DISPLAY_NAME@.take(9) == "</string>"@,
        PLIST_AFTER_DISPLAY_NAME@.len() >= 9,
        "<key>CFBundleShortVersionString</key>\n    <string>"@.len() == 50,
        PLIST_AFTER_DISPLAY_NAME@.len() >= 50,
        PLIST_AFTER_DISPLAY_NAME@.skip(PLIST_AFTER_DISPLAY_NAME@.len() - 50) == "<key>CFBundleShortVersionString</key>\n    <string>"@,
        PLIST_AFTER_SHORT_VERSION@.take(9) == "</string>"@,
        PLIST_AFTER_SHORT_VERSION@.len() >= 9,
        "<key>CFBundleVersion</key>\n    <string>"@.len() == 39,
        PLIST_AFTER_SHORT_VERSION@.len() >= 39,
        PLIST_AFTER_SHORT_VERSION@.skip(PLIST_AFTER_SHORT_VERSION@.len() - 39) == "<key>CFBundleVersion</key>\n    <string>"@,
        PLIST_AFTER_VERSION@.take(9) == "</string>"@,
        PLIST_AFTER_VERSION@.len() >= 9,
        "<key>NSHumanReadableCopyright</key>\n    <string>"@.len() == 48,
        PLIST_AFTER_VERSION@.len() >= 48,
        PLIST_AFTER_VERSION@.skip(PLIST_AFTER_VERSION@.len() - 48) == "<key>NSHumanReadableCopyright</key>\n    <string>"@,
        PLIST_TAIL@.take(9) == "</string>"@,
        PLIST_TAIL@.len() >= 9,
{
    reveal_strlit("</string>");
    lemma_plist_after_executable();
    lemma_plist_after_identifier();
    lemma_plist_after_name();
    lemma_plist_after_display_name();
    lemma_plist_after_short_version();
    lemma_plist_after_version();
    lemma_plist_tail();
}

proof fn lemma_plist_after_executable()
    ensures
        PLIST_AFTER_EXECUTABLE@.take(9) == "</string>"@,
        PLIST_AFTER_EXECUTABLE@.len() >= 9,
        "<key>CFBundleIdentifier</key>\n    <string>"@.len() == 42,
        PLIST_AFTER_EXECUTABLE@.len() >= 42,
        PLIST_AFTER_EXECUTABLE@.skip(PLIST_AFTER_EXECUTABLE@.len() - 42) == "<key>CFBundleIdentifier</key>\n    <string>"@,
{
    reveal_strlit("</string>\n    <key>CFBundleIconFile</key>\n    <string></string>\n    <key>CFBundleIdentifier</key>\n    <string>");
    reveal_strlit("</string>");
    assert(PLIST_AFTER_EXECUTABLE@.take(9) =~= "</string>"@);
    reveal_strlit("<key>CFBundleIdentifier</key>\n    <string>");
    assert(PLIST_AFTER_EXECUTABLE@.skip(68) =~= "<key>CFBundleIdentifier</key>\n    <string>"@);
}

proof fn lemma_plist_after_identifier()
    ensures
        PLIST_AFTER_IDENTIFIER@.take(9) == "</string>"@,
        PLIST_AFTER_IDENTIFIER@.len() >= 9,
        "<key>CFBundleName</key>\n    <string>"@.len() == 36,
        PLIST_AFTER_IDENTIFIER@.len() >= 36,
        PLIST_AFTER_IDENTIFIER@.skip(PLIST_AFTER_IDENTIFIER@.len() - 36) == "<key>CFBundleName</key>\n    <string>"@,
{
    reveal_strlit("</string>\n    <key>CFBundleName</key>\n    <string>");
    reveal_strlit("</string>");
    assert(PLIST_AFTER_IDENTIFIER@.take(9) =~= "</string>"@);
    reveal_strlit("<key>CFBundleName</key>\n    <string>");
    assert(PLIST_AFTER_IDENTIFIER@.skip(14) =~= "<key>CFBundleName</key>\n    <string>"@);
}

proof fn lemma_plist_after_name()
    ensures
        PLIST_AFTER_NAME@.take(9) == "</string>"@,
        PLIST_AFTER_NAME@.len() >= 9,
        "<key>CFBundleDisplayName</key>\n    <string>"@.len() == 43,
        PLIST_AFTER_NAME@.len() >= 43,
        PLIST_AFTER_NAME@.skip(PLIST_AFTER_NAME@.len() - 43) == "<key>CFBundleDisplayName</key>\n    <string>"@,
{
    reveal_strlit("</string>\n    <key>CFBundleDisplayName</key>\n    <string>");
    reveal_strlit("</string>");
    assert(PLIST_AFTER_NAME@.take(9) =~= "</string>"@);
    reveal_strlit("<key>CFBundleDisplayName</key>\n    <string>");
    assert(PLIST_AFTER_NAME@.skip(14) =~= "<key>CFBundleDisplayName</key>\n    <string>"@);
}

proof fn lemma_plist_after_display_name()
    ensures
        PLIST_AFTER_DISPLAY_NAME@.take(9) == "</string>"@,
        PLIST_AFTER_DISPLAY_NAME@.len() >= 9,
        "<key>CFBundleShortVersionString</key>\n    <string>"@.len() == 50,
        PLIST_AFTER_DISPLAY_NAME@.len() >= 50,
        PLIST_AFTER_DISPLAY_NAME@.skip(PLIST_AFTER_DISPLAY_NAME@.len() - 50) == "<key>CFBundleShortVersionString</key>\n    <string>"@,
{
    reveal_strlit("</string>\n    <key>CFBundlePackageType</key>\n    <string>BNDL</string>\n    <key>CFBundleSignature</key>\n    <string>????</string>\n    <key>CFBundleShortVersionString</key>\n    <string>");
    reveal_strlit("</string>");
    assert(PLIST_AFTER_DISPLAY_NAME@.take(9) =~= "</string>"@);
    reveal_strlit("<key>CFBundleShortVersionString</key>\n    <string>");
    assert(PLIST_AFTER_DISPLAY_NAME@.skip(134) =~= "<key>CFBundleShortVersionString</key>\n    <string>"@);
}

proof fn lemma_plist_after_short_version()
    ensures
        PLIST_AFTER_SHORT_VERSION@.take(9) == "</string>"@,
        PLIST_AFTER_SHORT_VERSION@.len() >= 9,
        "<key>CFBundleVersion</key>\n    <string>"@.len() == 39,
        PLIST_AFTER_SHORT_VERSION@.len() >= 39,
        PLIST_AFTER_SHORT_VERSION@.skip(PLIST_AFTER_SHORT_VERSION@.len() - 39) == "<key>CFBundleVersion</key>\n    <string>"@,
{
    reveal_strlit("</string>\n    <key>CFBundleVersion</key>\n    <string>");
    reveal_strlit("</string>");
    assert(PLIST_AFTER_SHORT_VERSION@.take(9) =~= "</string>"@);
    reveal_strlit("<key>CFBundleVersion</key>\n    <string>");
    assert(PLIST_AFTER_SHORT_VERSION@.skip(14) =~= "<key>CFBundleVersion</key>\n    <string>"@);
}

proof fn lemma_plist_after_version()
    ensures
        PLIST_AFTER_VERSION@.take(9) == "</string>"@,
        PLIST_AFTER_VERSION@.len() >= 9,
        "<key>NSHumanReadableCopyright</key>\n    <string>"@.len() == 48,
        PLIST_AFTER_VERSION@.len() >= 48,
        PLIST_AFTER_VERSION@.skip(PLIST_AFTER_VERSION@.len() - 48) == "<key>NSHumanReadableCopyright</key>\n    <string>"@,
{
    reveal_strlit("</string>\n    <key>NSHumanReadableCopyright</key>\n    <string>");
    reveal_strlit("</string>");
    assert(PLIST_AFTER_VERSION@.take(9) =~= "</string>"@);
    reveal_strlit("<key>NSHumanReadableCopyright</key>\n    <string>");
    assert(PLIST_AFTER_VERSION@.skip(14) =~= "<key>NSHumanReadableCopyright</key>\n    <string>"@);
}

proof fn lemma_plist_tail()
    ensures
        PLIST_TAIL@.take(9) == "</string>"@,
        PLIST_TAIL@.len() >= 9,
{
    reveal_strlit("</string>\n    <key>NSHighResolutionCapable</key>\n    <true/>\n  </dict>\n</plist>\n");
    reveal_strlit("</string>");
    assert(PLIST_TAIL@.take(9) =~= "</string>"@);
}

/// The validator is fetched in the archive of the platform and in one version, and found in the
/// archive under its own name.
pub proof fn validators_are_fetched_for_the_platform(
    platform: Platform,
    name: &str,
    url: String,
    below: Vec<String>,
)
    requires
        call_ensures(clap_validator_archive_name, (platform,), name),
        call_ensures(clap_validator_url, (platform,), url),
        call_ensures(clap_validator_executable, (platform,), below),
    ensures
        platform is Macos ==> name@ == "clap-validator-0.3.2-macos-universal.tar.gz"@,
        platform is Windows ==> name@ == "clap-validator-0.3.2-windows.zip"@,
        platform is Linux ==> name@ == "clap-validator-0.3.2-ubuntu-18.04.tar.gz"@,
        url@ == "https://github.com/free-audio/clap-validator/releases/download/"@ + "0.3.2"@ + "/"@
            + name@,
        platform is Windows ==> below@.len() == 1 && below@[0]@ == "clap-validator.exe"@,
        platform is Linux ==> below@.len() == 1 && below@[0]@ == "clap-validator"@,
        platform is Macos ==> below@.len() == 2 && below@[0]@ == "binaries"@ && below@[1]@
            == "clap-validator"@,
{
    assert(texts(below@).len() == below@.len());
    assert(texts(below@)[0] == below@[0]@);
    if platform is Macos {
        assert(texts(below@)[1] == below@[1]@);
    }
}

/// The validator is told to look at the bundle; a filter keeps the tests that it names out, and
/// without one none is kept out.
pub proof fn validators_are_told_what_to_leave_out(
    metadata: PluginMetadata,
    bundle: &str,
    args: Vec<String>,
)
    requires
        call_ensures(clap_validator_args, (&metadata, bundle), args),
    ensures
        args@[0]@ == "validate"@ && args@[1]@ == bundle@ && args@[2]@ == "--only-failed"@,
        metadata.validation.clap_validator.skip_test_filter is None ==> args@.len() == 3,
        metadata.validation.clap_validator.skip_test_filter matches Some(filter) ==> args@.len()
            == 6 && args@[3]@ == "--test-filter"@ && args@[4]@ == filter@ && args@[5]@
            == "--invert-filter"@,
{
    assert(texts(args@).len() == args@.len());
    assert(texts(args@)[0] == args@[0]@);
    assert(texts(args@)[1] == args@[1]@);
    assert(texts(args@)[2] == args@[2]@);
    if metadata.validation.clap_validator.skip_test_filter is Some {
        assert(texts(args@)[3] == args@[3]@);
        assert(texts(args@)[4] == args@[4]@);
        assert(texts(args@)[5] == args@[5]@);
    }
}

/// An Audio Unit is validated by its own type and subtype and the code of its manufacturer, in
/// this order.
pub proof fn audio_units_are_validated_by_their_codes(
    metadata: PluginMetadata,
    plugin: PluginProductMetadata,
    args: Vec<String>,
)
    requires
        call_ensures(auval_args, (&metadata, &plugin), args),
    ensures
        args@.len() == 4,
        args@[0]@ == "-v"@,
        args@[1]@ == plugin.auv2_type@,
        args@[2]@ == plugin.auv2_subtype@,
        args@[3]@ == metadata.auv2_manufacturer_code@,
{
    assert(texts(args@).len() == args@.len());
    assert(texts(args@)[0] == args@[0]@);
    assert(texts(args@)[1] == args@[1]@);
    assert(texts(args@)[2] == args@[2]@);
    assert(texts(args@)[3] == args@[3]@);
}

proof fn lemma_au_conflict(components: Seq<SystemComponent>, i: int)
    requires
        0 <= i <= components.len(),
    ensures
        au_conflict(components, i) is None <==> forall|k: int|
            i <= k < components.len() ==> !(#[trigger] components[k]).exists,
    decreases components.len() - i,
{
    if i < components.len() && !components[i].exists {
        lemma_au_conflict(components, i + 1);
    }
}

/// Audio Units are validated exactly where no copy for the whole system is there to be taken for
/// the one that was built.
pub proof fn copies_for_the_system_stop_a_validation(
    components: Vec<SystemComponent>,
    result: Result<(), String>,
)
    requires
        call_ensures(ensure_no_system_au_conflict, (&components,), result),
    ensures
        result is Ok <==> forall|i: int|
            0 <= i < components@.len() ==> !(#[trigger] components@[i]).exists,
{
    lemma_au_conflict(components@, 0);
}

} // verus!
