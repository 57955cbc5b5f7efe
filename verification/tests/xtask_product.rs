use wrac_plugin::wrac_xtask::aax::{
    aax_validator_cli_path, aax_validator_dtt_args, aax_validator_dtt_timeout_factor,
    aax_validator_required_tests, aax_validator_result_path, aax_validator_result_status,
    aax_validator_test_directory, aax_validator_timeout, assert_aax_validator_results,
    find_aax_validator_dtt_result, log_cut, normalize_aax_validator_main_config,
    normalize_macos_aax_validator_sysinfo, patch_aax_validator_bundle_path_script,
    patch_aax_validator_dtt_launcher, patch_aax_validator_run_all_tests_script,
    staged_aax_bundle_name, wait_for_aax_validator_process, windows_aax_validator_bundle_name,
    DttRun, EnvironmentValue, WaitStep, BUNDLE_FIRST, BUNDLE_FIRST_PATCHED, CONFIG_FIRST,
    CONFIG_FIRST_PATCHED, LAUNCHER_FIRST, LAUNCHER_FIRST_PATCHED, RUN_ALL_SECOND,
    RUN_ALL_SECOND_PATCHED, SYSINFO_FIRST, SYSINFO_FIRST_PATCHED,
};
use wrac_plugin::wrac_xtask::install::{
    effective_install_scope, install_dir, installed_artifacts, installed_bundle_names,
    standalone_plugin_to_launch, uninstall_scopes, InstallBase,
};
use wrac_plugin::wrac_xtask::metadata::{
    validate_aax_category, validate_aax_stem_format, validate_clap_feature, validate_four_ascii,
    validate_required, validate_uuid, AaxStemConfigMetadata, ClapValidatorMetadata, DisabledRules,
    DisabledValidationRule, PluginMetadata, PluginProductMetadata, ValidationMetadata,
};
use wrac_plugin::wrac_xtask::package::{
    auval_args, clap_validator_archive_name, clap_validator_args, clap_validator_executable,
    clap_validator_url, ensure_no_system_au_conflict, has_package_script, macos_clap_info_plist,
    pnpm_command, SystemComponent,
};
use wrac_plugin::wrac_xtask::steps::{
    aax_result_line, ensure_aax_validator_dtt, install_plugin_target, libraries_of_build,
    log_cut_note, log_heading, package_clap, selected_tests_line, shows_output, skipped_test_line, BuiltLibrary, InstallStep,
    PackageStep, PrepareStep,
};
use wrac_plugin::wrac_xtask::targets::{
    BuildProfile, InstallScope, Platform, PluginFormat, PluginTarget, UninstallScope,
    ValidateTarget,
};
use wrac_plugin::wrac_xtask::tools::{
    aax_validator_dtt_runner, aax_validator_dtt_runners, aax_validator_skipped_tests, build_gui,
    bundle_path_script_directories, bundle_path_scripts, clap_library_path, download_args,
    dsh_tar_args, dsh_zip_args, ensure_clap_validator, env_path, env_value_or, file_extension,
    is_nested_clap, is_patched_runner, is_shown_log, is_zip_archive, launch_command, main_configs,
    missing_launch_artifact, required_path, run_all_tests_scripts, unpack_args,
    vst3_validator_path, vst3_validator_to_use, FrontendBuild, PathSetting, ToolStep,
    Vst3Validator, AAX_ARCHIVE_UNSET,
};
use wrac_plugin::wrac_xtask::validate::{
    aax_copy_failure, aax_process_failure, create_failure, init_failure, plugin_count,
    validate_plugin_target, AaxAction, AaxEvent, AaxPhase, AaxRun, SchemaFault, ValidationStep,
};
use wrac_plugin::wrac_xtask::vst3::validate_vst3_component_ids;
use wrac_plugin::wrac_xtask::wrapper::{
    build_wrapper_target, cmake_configure_is_current, cmake_configure_stamp, cmake_wrapper_targets,
    configure_wrapper, ensure_wrapper_inputs, on_off, CmakeInput, RustPluginBuild, WrapperBuild,
    WrapperInputs, WrapperTarget,
};

fn plugin(id: &str, name: &str, subtype: &str) -> PluginProductMetadata {
    PluginProductMetadata {
        plugin_id: id.to_string(),
        plugin_name: name.to_string(),
        clap_features: vec!["audio-effect".to_string(), "stereo".to_string()],
        vst3_subcategories: "Fx|Tools".to_string(),
        vst3_component_id: "5c65bb45-6f84-527b-915a-a51a30ea5854".to_string(),
        standalone_name: format!("{} Standalone", name),
        auv2_type: "aufx".to_string(),
        auv2_subtype: subtype.to_string(),
        aax_categories: vec!["effect".to_string()],
        aax_product_id: subtype.to_string(),
        aax_stem_configs: vec![AaxStemConfigMetadata {
            name: "Stereo".to_string(),
            input: "stereo".to_string(),
            output: "stereo".to_string(),
            plugin_id: "TstS".to_string(),
        }],
    }
}

fn metadata() -> PluginMetadata {
    PluginMetadata {
        package_name: "test_plugin".to_string(),
        version: "1.0.0".to_string(),
        repository: None,
        company_name: "Example".to_string(),
        auv2_manufacturer_code: "ExCo".to_string(),
        aax_manufacturer_id: "ExCo".to_string(),
        bundle_name: "Test Bundle".to_string(),
        bundle_identifier: "com.example.test-plugin".to_string(),
        homepage_url: "https://example.com/test-plugin".to_string(),
        manual_url: "https://example.com/test-plugin/manual".to_string(),
        support_url: "https://example.com/support".to_string(),
        description: "Test plugin".to_string(),
        copyright: "Copyright 2026 Example".to_string(),
        supported_formats: vec![PluginFormat::Clap, PluginFormat::Vst3, PluginFormat::Au],
        plugins: vec![plugin("com.example.test", "Test Plugin", "TstP")],
        validation: ValidationMetadata {
            disabled_rules: DisabledRules::new(),
            clap_validator: ClapValidatorMetadata { skip_test_filter: None, skip_reason: None },
        },
    }
}

#[test]
fn complete_metadata_is_accepted() {
    assert_eq!(metadata().validate(), Ok(()));
    assert_eq!(metadata().clap_bundle_name(), "Test Bundle.clap");
    assert_eq!(metadata().vst3_bundle_name(), "Test Bundle.vst3");
    assert_eq!(metadata().aax_bundle_name(), "Test Bundle.aaxplugin");
    assert_eq!(metadata().au_bundle_name(), "Test Bundle.component");
    assert_eq!(metadata().bundle_identity_plugin().plugin_id, "com.example.test");
}

#[test]
fn ambiguous_metadata_is_refused() {
    let mut doubled = metadata();
    doubled.supported_formats.push(PluginFormat::Clap);
    assert!(doubled.validate().is_err());
    let mut doubled = metadata();
    doubled.plugins.push(plugin("com.example.test", "Other", "TstQ"));
    assert_eq!(
        doubled.validate(),
        Err("duplicate package.metadata.wrac.plugins plugin_id: com.example.test".to_string())
    );
    let mut doubled = metadata();
    doubled.plugins.push(plugin("com.example.other", "Other", "TstP"));
    assert_eq!(
        doubled.validate(),
        Err(
            "duplicate package.metadata.wrac.plugins AUv2 type/subtype: aufx/TstP".to_string()
        )
    );
    let mut none = metadata();
    none.plugins.clear();
    assert!(none.validate().is_err());
    let mut unnamed = metadata();
    unnamed.bundle_name = String::new();
    assert!(unnamed.validate().is_err());
    let mut unexplained = metadata();
    unexplained.validation.disabled_rules.insert(
        "bypass-param-shape".to_string(),
        DisabledValidationRule { reason: String::new() },
    );
    assert!(unexplained.validate().is_err());
}

#[test]
fn fields_of_metadata_are_checked() {
    assert_eq!(validate_clap_feature("audio-effect"), Ok(()));
    assert_eq!(
        validate_clap_feature("loud"),
        Err("unsupported package.metadata.wrac.plugins.clap_features value: loud".to_string())
    );
    assert_eq!(validate_aax_category("effect"), Ok(()));
    assert!(validate_aax_category("loud").is_err());
    assert_eq!(validate_aax_stem_format("input", "mono"), Ok(()));
    assert_eq!(
        validate_aax_stem_format("input", "quad"),
        Err("input must be mono or stereo".to_string())
    );
    assert_eq!(validate_required("name", "x"), Ok(()));
    assert_eq!(validate_required("name", ""), Err("name must not be empty".to_string()));
    assert_eq!(validate_four_ascii("code", "ab12"), Ok(()));
    assert_eq!(
        validate_four_ascii("code", "abc"),
        Err("package.metadata.wrac.code must be exactly 4 ASCII bytes".to_string())
    );
    assert!(validate_four_ascii("code", "é12").is_err());
    assert_eq!(validate_uuid("id", "5c65bb45-6f84-527b-915a-a51a30ea5854"), Ok(()));
    assert_eq!(
        validate_uuid("id", "5c65bb456f84527b915aa51a30ea585"),
        Err("id must be a UUID".to_string())
    );
}

#[test]
fn component_ids_have_to_match() {
    let found = "cid = 5C65BB456F84527B915AA51A30EA5854\n";
    assert_eq!(validate_vst3_component_ids(&metadata(), "x.vst3", found, ""), Ok(()));
    assert_eq!(validate_vst3_component_ids(&metadata(), "x.vst3", "", found), Ok(()));
    let error =
        validate_vst3_component_ids(&metadata(), "x.vst3", "cid = 0\n", "").err().unwrap();
    assert!(error.starts_with("VST3 component ID mismatch for x.vst3: metadata="));
}

#[test]
fn frontends_with_a_build_script_are_built() {
    let with = b"{\"scripts\": {\"build\": \"vite build\"}}";
    let without = b"{\"scripts\": {\"dev\": \"vite\"}}";
    assert_eq!(has_package_script(with, "build"), Ok(true));
    assert_eq!(has_package_script(without, "build"), Ok(false));
    assert!(has_package_script(b"{", "build").is_err());
    assert_eq!(build_gui(None), Ok(FrontendBuild::NoPackage));
    assert_eq!(build_gui(Some(with)), Ok(FrontendBuild::Build));
    assert_eq!(build_gui(Some(without)), Ok(FrontendBuild::NoBuildScript));
    assert!(build_gui(Some(b"[")).is_err());
    assert_eq!(pnpm_command(Platform::Windows), "pnpm.cmd");
    assert_eq!(pnpm_command(Platform::Linux), "pnpm");
}

#[test]
fn bundles_are_described_to_macos() {
    let plist = macos_clap_info_plist(&metadata());
    assert!(plist.contains("<string>Test Bundle</string>"));
    assert!(plist.contains("<string>com.example.test-plugin</string>"));
    assert!(plist.contains("<string>Copyright 2026 Example</string>"));
    assert!(plist.ends_with("</plist>\n"));
}

#[test]
fn the_clap_validator_is_found_and_called() {
    assert_eq!(
        clap_validator_archive_name(Platform::Windows),
        "clap-validator-0.3.2-windows.zip"
    );
    assert_eq!(
        clap_validator_url(Platform::Linux),
        "https://github.com/free-audio/clap-validator/releases/download/0.3.2/clap-validator-0.3.2-ubuntu-18.04.tar.gz"
    );
    assert_eq!(clap_validator_executable(Platform::Macos), ["binaries", "clap-validator"]);
    let args = clap_validator_args(&metadata(), "x.clap");
    assert_eq!(args[0], "validate");
    assert!(args.contains(&"x.clap".to_string()));
    let product = metadata();
    let args = auval_args(&product, &product.plugins[0]);
    assert!(args.contains(&"TstP".to_string()));
    assert!(args.contains(&"ExCo".to_string()));
    assert_eq!(
        ensure_clap_validator(Platform::Linux, false, false),
        [ToolStep::Download, ToolStep::Unpack, ToolStep::EnsureTool, ToolStep::MakeExecutable]
    );
    assert_eq!(
        ensure_clap_validator(Platform::Windows, false, true),
        [ToolStep::Unpack, ToolStep::EnsureTool]
    );
    assert!(ensure_clap_validator(Platform::Macos, true, false).is_empty());
    assert_eq!(
        download_args("a.zip", "http://x/"),
        ["-L", "--fail", "-o", "a.zip", "http://x/"]
    );
    assert_eq!(unpack_args("/t/a.zip", "a.zip", "/t"), ["-xf", "/t/a.zip", "-C", "/t"]);
    assert_eq!(unpack_args("/t/a.tgz", "a.tgz", "/t"), ["-xzf", "/t/a.tgz", "-C", "/t"]);
}

#[test]
fn a_system_wide_audio_unit_is_in_the_way() {
    let free = vec![SystemComponent { path: "/Library/x".to_string(), exists: false }];
    assert_eq!(ensure_no_system_au_conflict(&free), Ok(()));
    let taken = vec![SystemComponent { path: "/Library/x".to_string(), exists: true }];
    assert!(ensure_no_system_au_conflict(&taken).err().unwrap().contains("/Library/x"));
}

#[test]
fn formats_have_places() {
    let location = install_dir(Platform::Macos, InstallScope::User, PluginFormat::Clap).unwrap();
    assert_eq!(location.base, InstallBase::Home);
    assert_eq!(location.below, ["Library/Audio/Plug-Ins/CLAP"]);
    assert!(install_dir(Platform::Linux, InstallScope::User, PluginFormat::Au).is_err());
    assert_eq!(
        effective_install_scope(InstallScope::Default, PluginFormat::Clap),
        InstallScope::User
    );
    assert_eq!(
        uninstall_scopes(Platform::Macos, UninstallScope::All, PluginFormat::Vst3),
        [InstallScope::User, InstallScope::System]
    );
    assert_eq!(
        installed_bundle_names(&metadata(), PluginTarget::Clap),
        ["Test Bundle.clap"]
    );
    let artifacts = installed_artifacts(
        &metadata(),
        Platform::Macos,
        UninstallScope::All,
        PluginTarget::Vst3,
    )
    .unwrap();
    assert_eq!(artifacts.len(), 2);
    assert_eq!(artifacts[0].bundle_name, "Test Bundle.vst3");
}

#[test]
fn stale_audio_units_are_removed_first() {
    let mut product = metadata();
    product.plugins.push(plugin("com.example.other", "Other", "TstQ"));
    let steps = install_plugin_target(&product, PluginTarget::Au);
    assert_eq!(steps.len(), 3);
    assert!(matches!(&steps[0], InstallStep::Remove { name } if name == "Test Plugin.component"));
    assert!(matches!(&steps[1], InstallStep::Remove { name } if name == "Other.component"));
    assert!(matches!(&steps[2], InstallStep::Copy));
    assert_eq!(install_plugin_target(&product, PluginTarget::Vst3).len(), 1);
}

#[test]
fn one_plugin_is_launched() {
    let mut product = metadata();
    assert_eq!(
        standalone_plugin_to_launch(&product, None).unwrap().plugin_id,
        "com.example.test"
    );
    product.plugins.push(plugin("com.example.other", "Other", "TstQ"));
    assert!(standalone_plugin_to_launch(&product, None).is_err());
    assert_eq!(
        standalone_plugin_to_launch(&product, Some("com.example.other")).unwrap().plugin_name,
        "Other"
    );
    assert_eq!(
        standalone_plugin_to_launch(&product, Some("nope")).err().unwrap(),
        "plugin ID not found in WRAC metadata: nope"
    );
    assert_eq!(launch_command(Platform::Macos, "x.app"), ["open", "-W", "-n", "x.app"]);
    assert_eq!(launch_command(Platform::Linux, "x"), ["x"]);
    assert_eq!(
        missing_launch_artifact("x.app", "pkg", BuildProfile::Release),
        "standalone artifact not found: x.app\nRun `cargo xtask build -p pkg --target=standalone --release` first."
    );
}

fn wrapper_inputs(platform: Platform) -> WrapperInputs {
    WrapperInputs {
        metadata: metadata(),
        platform,
        profile: BuildProfile::Debug,
        wrapper_dir: "/w".to_string(),
        build_dir: "/b".to_string(),
        stage_dir: "/s".to_string(),
        static_library: "/l.a".to_string(),
        aax_sdk_root: "/aax".to_string(),
        audio_unit_sdk_root: "/au".to_string(),
        deployment_target: "11.0".to_string(),
    }
}

#[test]
fn wrappers_are_configured() {
    let build = WrapperBuild::Plugins { vst3: true, au: true };
    let args = configure_wrapper(build, &wrapper_inputs(Platform::Macos));
    assert_eq!(&args[..4], ["-S", "/w", "-B", "/b"]);
    for wanted in [
        "-DCLAP_WRAPPER_BUILDER_BUILD_VST3=ON",
        "-DCLAP_WRAPPER_BUILDER_BUILD_AUV2=ON",
        "-DCLAP_WRAPPER_BUILDER_BUILD_AAX=OFF",
        "-DCLAP_WRAPPER_BUILDER_PRODUCT_COUNT=1",
        "-DCLAP_WRAPPER_BUILDER_PRODUCT_0_AUV2_SUBTYPE=TstP",
        "-DCMAKE_BUILD_TYPE=Debug",
    ] {
        assert!(args.contains(&wanted.to_string()), "{wanted}");
    }
    let args = configure_wrapper(WrapperBuild::Standalone, &wrapper_inputs(Platform::Windows));
    assert!(args.contains(
        &"-DCLAP_WRAPPER_BUILDER_PRODUCT_0_PLUGIN_ID=com.example.test".to_string()
    ));
    assert_eq!(on_off(true), "ON");
    assert!(!ensure_wrapper_inputs(build).is_empty());
    assert!(!cmake_wrapper_targets(&metadata(), build, WrapperTarget::Vst3).is_empty());
    let args = build_wrapper_target("/b", "t", BuildProfile::Release, Platform::Linux);
    assert!(args.contains(&"/b".to_string()));
    assert!(args.contains(&"t".to_string()));
    assert_eq!(WrapperBuild::Standalone.rust_build(), RustPluginBuild::Standalone);
    assert_eq!(RustPluginBuild::Default.cargo_target_dir(), "");
    assert_eq!(RustPluginBuild::Standalone.cargo_target_dir(), "wrac/cargo/standalone");
}

#[test]
fn a_changed_input_makes_a_configuration_stale() {
    let args = vec!["-S".to_string(), "/w".to_string()];
    let input = |modified: &str| {
        vec![CmakeInput {
            relative_path: "CMakeLists.txt".to_string(),
            modified: modified.to_string(),
        }]
    };
    let stamp = cmake_configure_stamp(&args, &input("1"));
    assert!(cmake_configure_is_current(Some(&stamp), &args, &input("1")));
    assert!(!cmake_configure_is_current(Some(&stamp), &args, &input("2")));
    assert!(!cmake_configure_is_current(None, &args, &input("1")));
}

#[test]
fn packages_end_signed_and_checked() {
    assert_eq!(
        package_clap(Platform::Linux),
        [
            PackageStep::RemoveBundle,
            PackageStep::CreatePluginsDirectory,
            PackageStep::CopyLibrary,
            PackageStep::EnsureArtifact,
        ]
    );
    let macos = package_clap(Platform::Macos);
    assert_eq!(&macos[macos.len() - 2..], [PackageStep::Sign, PackageStep::EnsureArtifact]);
    assert_eq!(libraries_of_build(true), [BuiltLibrary::Dynamic, BuiltLibrary::Static]);
    assert_eq!(libraries_of_build(false), [BuiltLibrary::Dynamic]);
    assert_eq!(BuiltLibrary::Static.description(), "static plugin library");
    assert_eq!(
        clap_library_path(Platform::Macos, "/p/x.clap", "x"),
        "/p/x.clap/Contents/MacOS/x"
    );
    assert_eq!(clap_library_path(Platform::Linux, "/p/x.clap", "x"), "/p/x.clap");
    assert!(is_nested_clap("Gain.clap"));
    assert!(!is_nested_clap("Gain.vst3"));
}

#[test]
fn archives_are_told_by_their_names() {
    assert_eq!(file_extension("a.tar.gz"), Some("gz".to_string()));
    assert_eq!(file_extension(".env"), None);
    assert_eq!(file_extension("plain"), None);
    assert!(is_zip_archive("DSH.ZIP"));
    assert!(!is_zip_archive("dsh.tar.gz"));
    assert_eq!(
        dsh_zip_args("a.zip", "r"),
        [
            "-NoProfile",
            "-Command",
            "Expand-Archive -LiteralPath 'a.zip' -DestinationPath 'r' -Force",
        ]
    );
    assert_eq!(
        dsh_tar_args("a.tgz", "r"),
        ["-xf", "a.tgz", "--strip-components=1", "-C", "r"]
    );
}

#[test]
fn settings_name_paths() {
    assert_eq!(env_path(None, false), PathSetting::Unset);
    assert_eq!(env_path(Some(""), false), PathSetting::Unset);
    assert_eq!(env_path(Some("/sdk"), true), PathSetting::Absolute);
    assert_eq!(env_path(Some("sdk"), false), PathSetting::BelowRoot);
    assert_eq!(
        required_path(PathSetting::Unset, false, "", "archive", AAX_ARCHIVE_UNSET),
        Err(AAX_ARCHIVE_UNSET.to_string())
    );
    assert_eq!(
        required_path(PathSetting::Absolute, false, "/a", "archive", AAX_ARCHIVE_UNSET),
        Err("archive not found: /a".to_string())
    );
    assert_eq!(
        required_path(PathSetting::Absolute, true, "/a", "archive", AAX_ARCHIVE_UNSET),
        Ok(())
    );
    assert_eq!(env_value_or(None, "11.0"), "11.0");
    assert_eq!(env_value_or(Some("12"), "11.0"), "12");
}

#[test]
fn the_runner_is_looked_for_in_order() {
    let places = aax_validator_dtt_runners(Platform::Windows);
    assert_eq!(places[0], "DigiShell/DTT/run_test.bat");
    assert_eq!(places.len(), 4);
    assert_eq!(aax_validator_dtt_runners(Platform::Macos)[1], "DTT/run_test.command");
    assert_eq!(aax_validator_dtt_runner(&[false, true, true, false], "/r"), Ok(1));
    assert_eq!(
        aax_validator_dtt_runner(&[false; 4], "/r"),
        Err("AAX validator DTT runner not found under /r".to_string())
    );
    assert_eq!(run_all_tests_scripts().len(), 4);
    assert_eq!(bundle_path_script_directories().len() * bundle_path_scripts().len(), 15);
    assert_eq!(main_configs().len(), 3);
    assert_eq!(aax_validator_skipped_tests()[0].0, "test.cycle_counts");
    assert_eq!(
        ensure_aax_validator_dtt(Platform::Macos).last(),
        Some(&PrepareStep::MakeRunnerExecutable)
    );
    assert_eq!(
        ensure_aax_validator_dtt(Platform::Windows).last(),
        Some(&PrepareStep::NormalizeConfig)
    );
}

#[test]
fn the_vst3_validator_is_looked_for_in_order() {
    assert_eq!(vst3_validator_to_use(true, true), Some(Vst3Validator::WithConfiguration));
    assert_eq!(vst3_validator_to_use(false, true), Some(Vst3Validator::WithoutConfiguration));
    assert_eq!(vst3_validator_to_use(false, false), None);
    assert_eq!(
        vst3_validator_path(Platform::Windows, Vst3Validator::WithConfiguration),
        "vst3sdk-validator/bin/Debug/validator.exe"
    );
    assert_eq!(
        vst3_validator_path(Platform::Linux, Vst3Validator::WithoutConfiguration),
        "vst3sdk-validator/bin/validator"
    );
}

#[test]
fn aax_tests_run_one_after_the_other() {
    let (mut run, action) = AaxRun::start(2);
    assert_eq!(action, AaxAction::RunTest { index: 0 });
    assert_eq!(
        run.advance(AaxEvent::ProcessEnded { success: true }),
        AaxAction::FindResult
    );
    assert_eq!(run.advance(AaxEvent::ResultSearched { found: true }), AaxAction::CopyResult);
    assert_eq!(
        run.advance(AaxEvent::ResultCopied { copied: true }),
        AaxAction::RunTest { index: 1 }
    );
    assert_eq!(
        run.advance(AaxEvent::ProcessEnded { success: false }),
        AaxAction::ShowAndFail
    );
    assert_eq!(run.phase, AaxPhase::Failed);
    assert_eq!(AaxRun::start(0).1, AaxAction::Finish);
    assert_eq!(
        aax_process_failure("t", "/o"),
        "AAX validator/DTT failed while running t; see /o"
    );
    assert_eq!(
        aax_copy_failure("/a", "/b", "e"),
        "failed to copy AAX validator result /a to /b: e"
    );
}

#[test]
fn aax_tests_are_called_with_their_arguments() {
    let run = DttRun {
        platform: Platform::Macos,
        test_id: "test.parameters".to_string(),
        timeout_factor: 10,
        log_dir: "/t/logs".to_string(),
        search_dir: "/t".to_string(),
        test_dir: "/t/d".to_string(),
        bundle: "/t/x.aaxplugin".to_string(),
    };
    let args = aax_validator_dtt_args(&run);
    assert_eq!(&args[..2], ["--script", "ValidatorRunAllTests"]);
    assert!(args.contains(&"test_id=test.parameters".to_string()));
    assert!(args.contains(&"pi_path=/t".to_string()));
    assert!(!args.iter().any(|arg| arg.starts_with("aaxplugin_path=")));
    let windows = DttRun { platform: Platform::Windows, ..run };
    assert_eq!(
        aax_validator_dtt_args(&windows).last().unwrap(),
        &format!("aaxplugin_path={}", aax_validator_cli_path(Platform::Windows, "/t/x.aaxplugin"))
    );
    assert_eq!(aax_validator_test_directory(0, "info.productids"), "01-info_productids");
    assert_eq!(aax_validator_test_directory(11, "test.parameters"), "12-test_parameters");
    assert_eq!(aax_validator_result_path(0, "info.productids"), "01-info_productids.json");
}

#[test]
fn aax_results_are_found_and_read() {
    let names = vec!["other__1.json".to_string(), "test.parameters__7.json".to_string()];
    assert_eq!(find_aax_validator_dtt_result(&names, "test.parameters", "/d"), Ok(1));
    assert!(find_aax_validator_dtt_result(&names, "test.load_unload", "/d").is_err());
    assert_eq!(
        aax_validator_result_status("{\"result_status\": \"Pass\"}", "/r.json"),
        Ok("Pass".to_string())
    );
    assert_eq!(
        aax_validator_result_status("{}", "/r.json"),
        Err("AAX validator result did not include result_status: /r.json".to_string())
    );
    assert!(aax_validator_result_status("{", "/r.json")
        .err()
        .unwrap()
        .starts_with("failed to parse AAX validator result /r.json: "));
}

#[test]
fn every_aax_test_has_to_pass() {
    let count = aax_validator_required_tests().len();
    assert_eq!(count, 12);
    let passed = vec!["E_COMPLETED_PASS".to_string(); count];
    assert_eq!(assert_aax_validator_results(&passed), Ok(()));
    let failed = vec!["no such status".to_string(); count];
    assert!(assert_aax_validator_results(&failed)
        .err()
        .unwrap()
        .starts_with("AAX validator reported failed validation results: info.productids ("));
}

#[test]
fn aax_timeouts_are_read() {
    let text = |value: &str| EnvironmentValue::Text { value: value.to_string() };
    assert_eq!(aax_validator_timeout(&EnvironmentValue::Unset), Ok(900));
    assert_eq!(aax_validator_timeout(&text("60")), Ok(60));
    assert!(aax_validator_timeout(&text("soon")).is_err());
    assert_eq!(aax_validator_dtt_timeout_factor(&EnvironmentValue::Unset), Ok(10));
    assert_eq!(aax_validator_dtt_timeout_factor(&text("3")), Ok(3));
    let unreadable = EnvironmentValue::Unreadable { error: "bad".to_string() };
    assert!(aax_validator_dtt_timeout_factor(&unreadable).is_err());
    assert!(matches!(wait_for_aax_validator_process(true, 0, 1), WaitStep::Ended));
    assert!(matches!(wait_for_aax_validator_process(false, 0, 1), WaitStep::Sleep));
    assert!(matches!(
        wait_for_aax_validator_process(false, u128::MAX, 1),
        WaitStep::TimedOut { .. }
    ));
}

#[test]
fn staged_bundles_have_simple_names_on_windows() {
    assert_eq!(
        staged_aax_bundle_name(Platform::Macos, "My Gain.aaxplugin"),
        "My Gain.aaxplugin"
    );
    let name = windows_aax_validator_bundle_name("My Gain.aaxplugin");
    assert!(!name.contains(' '));
    assert!(name.ends_with(".aaxplugin"));
    assert_eq!(staged_aax_bundle_name(Platform::Windows, "My Gain.aaxplugin"), name);
}

#[test]
fn scripts_of_the_validator_are_patched_once() {
    let patched = patch_aax_validator_dtt_launcher(LAUNCHER_FIRST);
    assert_eq!(patched, LAUNCHER_FIRST_PATCHED);
    assert_eq!(patch_aax_validator_dtt_launcher(&patched), patched);
    assert_eq!(
        patch_aax_validator_run_all_tests_script(RUN_ALL_SECOND),
        RUN_ALL_SECOND_PATCHED
    );
    assert_eq!(patch_aax_validator_bundle_path_script(BUNDLE_FIRST), BUNDLE_FIRST_PATCHED);
    assert_eq!(normalize_macos_aax_validator_sysinfo(SYSINFO_FIRST), SYSINFO_FIRST_PATCHED);
    assert_eq!(normalize_aax_validator_main_config(CONFIG_FIRST), CONFIG_FIRST_PATCHED);
    assert_eq!(patch_aax_validator_bundle_path_script("nothing"), "nothing");
}

#[test]
fn long_logs_are_cut() {
    assert_eq!(log_cut("short"), None);
    let mut long = "x".repeat(65535);
    long.push('é');
    long.push('y');
    assert_eq!(log_cut(&long), Some(65535));
    assert_eq!(log_cut(&"x".repeat(70000)), Some(65536));
    assert_eq!(log_heading("/l"), "========== AAX validator DTT log (/l) ==========");
    assert_eq!(log_cut_note(70000, 65536, "/l"), "... truncated 4464 bytes from /l");
    assert!(is_shown_log("a.txt"));
    assert!(!is_shown_log("a.log"));
    assert!(shows_output(" x "));
    assert!(!shows_output(" \n"));
    assert_eq!(skipped_test_line("t", "r"), "Skipping t: r.");
    assert_eq!(aax_result_line("t", "E_COMPLETED_PASS", "/r"), "AAX validator PASS: t");
    assert_eq!(aax_result_line("t", "E_FAIL", "/r"), "AAX validator FAIL: t (E_FAIL); see /r");
    assert!(is_patched_runner("run_test.command"));
    assert!(!is_patched_runner("run_test.bat"));
    assert_eq!(selected_tests_line(12), "AAX validation runs 12 selected validator tests.");
}

#[test]
fn formats_are_validated_step_by_step() {
    assert_eq!(
        validate_plugin_target(ValidateTarget::Vst3, 1),
        [
            ValidationStep::EnsureArtifact,
            ValidationStep::EnsureValidator,
            ValidationStep::RunValidator,
            ValidationStep::CheckComponentIds,
        ]
    );
    assert_eq!(
        validate_plugin_target(ValidateTarget::Au, 2),
        [
            ValidationStep::EnsureNoSystemBundle,
            ValidationStep::EnsureArtifact,
            ValidationStep::RestartRegistrar,
            ValidationStep::RunPluginValidator { plugin: 0 },
            ValidationStep::RunPluginValidator { plugin: 1 },
        ]
    );
    assert_eq!(validate_plugin_target(ValidateTarget::Clap, 1).len(), 3);
    assert_eq!(
        validate_plugin_target(ValidateTarget::Aax, 1),
        [ValidationStep::EnsureArtifact, ValidationStep::RunValidator]
    );
}

#[test]
fn faults_of_a_plugin_have_messages() {
    assert_eq!(plugin_count(None), Err(SchemaFault::NoPluginCount));
    assert_eq!(plugin_count(Some(0)), Err(SchemaFault::NoPlugins));
    assert_eq!(plugin_count(Some(2)), Ok(2));
    assert_eq!(create_failure("x"), "CLAP factory failed to create plugin id=x");
    assert_eq!(init_failure("x"), "CLAP plugin init failed for plugin id=x");
    assert_eq!(SchemaFault::NoPlugins.message(), "CLAP factory contains no plugins");
    assert_eq!(
        SchemaFault::NullDescriptor { index: 3 }.message(),
        "CLAP factory returned a null descriptor at index 3"
    );
    assert_eq!(
        SchemaFault::ParameterInfoFailed { index: 12 }.message(),
        "CLAP params.get_info failed for index 12"
    );
}
