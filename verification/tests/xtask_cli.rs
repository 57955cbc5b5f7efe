use wrac_plugin::wrac_xtask::targets::{BuildProfile, InstallScope, Platform, UninstallScope};
use wrac_plugin::xtask::commands::{
    artifacts_of_build, build, build_wrapper_set, cargo_args, codesign_args,
    configure_wrapper_set, ensure_wrapper_inputs, install_dir, install_name_args,
    installable_targets, macos_clap_info_plist, output_line, uninstall_scopes,
    validate_built_targets, validate_targets,
    vst3_validator_build_args, vst3_validator_configure_args, BuildStep, UninstallAction,
    UninstallCount, WrapperBuild, WrapperSet,
};
use wrac_plugin::xtask::context::{
    cmake_dir, dynamic_library, plugin_bundle, plugins_dir, standalone_artifact, standalone_dir,
    static_library, vst3_validator,
};
use wrac_plugin::xtask::targets::{
    resolve_build_targets, resolve_plugin_targets, resolve_validate_targets, PluginTarget, Target,
    ValidateTarget,
};
use wrac_plugin::xtask::util::{ensure_exists, format_command, shell_display};

#[test]
fn requests_are_resolved_once_each() {
    assert_eq!(
        resolve_build_targets(
            Platform::Macos,
            &[Target::Vst3, Target::Clap, Target::Vst3, Target::Standalone]
        ),
        Ok(vec![Target::Vst3, Target::Clap, Target::Standalone])
    );
    assert!(resolve_build_targets(Platform::Windows, &[Target::Au]).is_err());
    assert_eq!(resolve_build_targets(Platform::Linux, &[]), Ok(vec![Target::Clap]));
    assert_eq!(
        resolve_plugin_targets(Platform::Linux, &[]),
        Ok(vec![PluginTarget::Clap])
    );
    assert_eq!(
        resolve_validate_targets(Platform::Macos, &[]),
        Ok(vec![ValidateTarget::Vst3, ValidateTarget::Au])
    );
    assert_eq!(
        resolve_validate_targets(Platform::Windows, &[]),
        Ok(vec![ValidateTarget::Vst3])
    );
    for platform in [Platform::Macos, Platform::Windows, Platform::Linux] {
        for target in platform.default_build_targets() {
            assert!(platform.supports_target(target));
        }
    }
    assert!(Platform::Macos.supports_wrappers());
    assert!(!Platform::Linux.supports_au());
}

#[test]
fn builds_make_what_is_asked_for() {
    let steps = build(false, false, false, &[Target::Clap]);
    assert!(steps.contains(&BuildStep::PackageClap));
    assert!(!steps.contains(&BuildStep::Clean));
    assert_eq!(steps.last(), Some(&BuildStep::PrintOutputs));
    let steps = build(true, true, false, &[Target::Vst3, Target::Standalone]);
    assert_eq!(steps[0], BuildStep::Clean);
    assert!(steps.contains(&BuildStep::BuildPluginWrappers { vst3: true, au: false }));
    assert!(steps.contains(&BuildStep::BuildStandalone));
    assert!(steps.contains(&BuildStep::Install));
    assert_eq!(
        installable_targets(&[Target::Standalone, Target::Au, Target::Clap]),
        [PluginTarget::Au, PluginTarget::Clap]
    );
}

#[test]
fn commands_have_their_arguments() {
    assert_eq!(
        cargo_args("/t", "/m", BuildProfile::Release),
        ["build", "--target-dir", "/t", "--manifest-path", "/m", "--release"]
    );
    assert_eq!(cargo_args("/t", "/m", BuildProfile::Debug).len(), 5);
    assert!(codesign_args("/x").contains(&"/x".to_string()));
    assert!(install_name_args("Gain", "/l").contains(&"@loader_path/Gain".to_string()));
    assert_eq!(output_line(Target::Clap, "/x"), "CLAP: /x");
    let plist = macos_clap_info_plist("Gain", "com.acme.gain");
    assert!(plist.contains("<string>com.acme.gain</string>"));
    assert!(vst3_validator_configure_args(Platform::Linux, "/sdk", "/b")
        .contains(&"/sdk".to_string()));
    assert!(vst3_validator_build_args("/b").contains(&"/b".to_string()));
    assert_eq!(shell_display("plain"), "plain");
    assert_ne!(shell_display("two words"), "two words");
    assert_eq!(format_command(&["a".to_string(), "b".to_string()]), "a b");
    assert_eq!(ensure_exists(true, "/x", "thing"), Ok(()));
    assert_eq!(ensure_exists(false, "/x", "thing"), Err("thing not found: /x".to_string()));
}

#[test]
fn a_wrapper_set_is_configured() {
    let set = WrapperSet {
        platform: Platform::Macos,
        profile: BuildProfile::Debug,
        package: "gain".to_string(),
        plugin_id: "com.acme.gain".to_string(),
        plugin_name: "Gain".to_string(),
        company_name: "Acme".to_string(),
        auv2_subtype: "Gain".to_string(),
        auv2_manufacturer_code: "Acme".to_string(),
        standalone_name: "Gain App".to_string(),
        wrapper_dir: "/w".to_string(),
        build_dir: "/b".to_string(),
        stage_dir: "/s".to_string(),
        static_library: "/l.a".to_string(),
        audio_unit_sdk: "/au".to_string(),
    };
    let both = WrapperBuild::Plugin { vst3: true, au: true };
    let args = configure_wrapper_set(both, &set);
    assert!(args.contains(&"/w".to_string()));
    assert!(args.contains(&"-DCLAP_WRAPPER_BUILDER_BUILD_VST3=ON".to_string()));
    assert!(build_wrapper_set(&set).contains(&"/b".to_string()));
    let targets: Vec<Target> =
        artifacts_of_build(both, Platform::Macos).iter().map(|made| made.target).collect();
    assert_eq!(targets, [Target::Vst3, Target::Au]);
    assert!(!ensure_wrapper_inputs(Platform::Macos).is_empty());
}

#[test]
fn paths_lie_below_the_target_directory() {
    let directory = plugins_dir(BuildProfile::Debug);
    let bundle = plugin_bundle(BuildProfile::Debug, "Gain.clap");
    assert_eq!(bundle[..directory.len()], directory[..]);
    assert_eq!(bundle.last().unwrap(), "Gain.clap");
    assert!(!standalone_dir(BuildProfile::Release).is_empty());
    assert_eq!(cmake_dir("plugins", BuildProfile::Debug), ["wrac", "cmake", "plugins-debug"]);
    assert!(!standalone_artifact(Platform::Macos, BuildProfile::Debug, "Gain").is_empty());
    assert_eq!(
        dynamic_library(Platform::Linux, BuildProfile::Release, "gain"),
        ["release", "libgain.so"]
    );
    assert_eq!(
        static_library(Platform::Windows, BuildProfile::Debug, "gain"),
        ["debug", "gain.lib"]
    );
    assert_eq!(vst3_validator(Platform::Linux).last().unwrap(), "validator");
}

#[test]
fn uninstalling_covers_installing() {
    assert_eq!(
        uninstall_scopes(UninstallScope::All),
        [InstallScope::User, InstallScope::System]
    );
    assert!(install_dir(Platform::Linux, InstallScope::User, PluginTarget::Clap).is_ok());
    let mut count = UninstallCount::new();
    assert_eq!(count.look(false, false), UninstallAction::ReportMissing);
    assert_eq!(count.look(true, true), UninstallAction::ReportOnly);
    assert_eq!(count.look(true, false), UninstallAction::Remove);
    assert_eq!((count.removed, count.missing), (2, 1));
    assert_eq!(UninstallAction::ReportMissing.line("/x"), "Not found: /x");
    assert_eq!(UninstallAction::ReportOnly.line("/x"), "Would remove: /x");
    assert_eq!(UninstallAction::Remove.line("/x"), "Removing: /x");
    assert_ne!(count.summary(true), count.summary(false));
}

#[test]
fn validation_keeps_its_order() {
    let order = validate_targets(&[ValidateTarget::Vst3, ValidateTarget::Au]);
    assert_eq!(order.len(), 2);
}

#[test]
fn only_wrapped_plugins_are_wrappers() {
    assert!(Target::Vst3.is_wrapper());
    assert!(Target::Au.is_wrapper());
    assert!(!Target::Clap.is_wrapper());
    assert!(!Target::Standalone.is_wrapper());
    assert_eq!(BuildProfile::from_release(true), BuildProfile::Release);
    assert_eq!(BuildProfile::from_release(false), BuildProfile::Debug);
}

#[test]
fn a_build_validates_what_it_has_made() {
    let targets = [Target::Au, Target::Standalone, Target::Vst3, Target::Clap];
    let steps = build(false, true, true, &targets);
    assert_eq!(
        steps[steps.len() - 3..],
        [BuildStep::Install, BuildStep::Validate, BuildStep::PrintOutputs]
    );
    assert!(!build(false, true, false, &targets).contains(&BuildStep::Validate));
    assert_eq!(validate_built_targets(&targets), [ValidateTarget::Vst3, ValidateTarget::Au]);
    assert_eq!(validate_built_targets(&[Target::Au]), [ValidateTarget::Au]);
    assert!(validate_built_targets(&[Target::Clap, Target::Standalone]).is_empty());
    assert_eq!(Target::Vst3.validate_target(), Some(ValidateTarget::Vst3));
    assert_eq!(Target::Clap.validate_target(), None);
}
