use wrac_plugin::clap_abi::{
    CLAP_PARAM_IS_BYPASS, CLAP_PARAM_IS_ENUM, CLAP_PARAM_IS_HIDDEN, CLAP_PARAM_IS_READONLY,
    CLAP_PARAM_IS_STEPPED,
};
use wrac_plugin::wrac_xtask::checks::{
    evaluate_checks, evaluate_source_checks, is_template_development_checkout,
    template_placeholder_violations, validate_disabled_rules, CheckResult, CheckStatus,
    ParameterNumber, ParameterSchema, PluginSchema, RULE_BYPASS_PARAM_SHAPE,
    RULE_FENDER_SINGLE_KNOB, RULE_LUNA_VST3_PARAM_ID_MATCH_INDEX, RULE_PLUGIN_REQUIRES_BYPASS,
    RULE_TEMPLATE_PLACEHOLDERS_RENAMED,
};
use wrac_plugin::wrac_xtask::metadata::{
    AaxStemConfigMetadata, ClapValidatorMetadata, DisabledRules, DisabledValidationRule,
    PluginMetadata, PluginProductMetadata, ValidationMetadata,
};
use wrac_plugin::wrac_xtask::targets::{PluginFormat, ValidateTarget};

fn schema(params: Vec<ParameterSchema>) -> PluginSchema {
    PluginSchema {
        plugin_id: "com.example.test".to_string(),
        plugin_name: "Test Plugin".to_string(),
        params,
    }
}

fn metadata() -> PluginMetadata {
    PluginMetadata {
        package_name: "test_plugin".to_string(),
        version: "1.0.0".to_string(),
        repository: Some("https://github.com/example/test-plugin".to_string()),
        company_name: "Example".to_string(),
        auv2_manufacturer_code: "ExCo".to_string(),
        aax_manufacturer_id: "ExCo".to_string(),
        bundle_name: "Test Plugin".to_string(),
        bundle_identifier: "com.example.test-plugin".to_string(),
        homepage_url: "https://example.com/test-plugin".to_string(),
        manual_url: "https://example.com/test-plugin/manual".to_string(),
        support_url: "https://example.com/support".to_string(),
        description: "Test plugin".to_string(),
        copyright: "Copyright 2026 Example".to_string(),
        supported_formats: vec![PluginFormat::Clap, PluginFormat::Vst3, PluginFormat::Au],
        plugins: vec![PluginProductMetadata {
            plugin_id: "com.example.test".to_string(),
            plugin_name: "Test Plugin".to_string(),
            clap_features: vec![
                "audio-effect".to_string(),
                "utility".to_string(),
                "stereo".to_string(),
            ],
            vst3_subcategories: "Fx|Tools".to_string(),
            vst3_component_id: "5c65bb45-6f84-527b-915a-a51a30ea5854".to_string(),
            standalone_name: "Test Plugin Standalone".to_string(),
            auv2_type: "aufx".to_string(),
            auv2_subtype: "TstP".to_string(),
            aax_categories: vec!["effect".to_string()],
            aax_product_id: "TstP".to_string(),
            aax_stem_configs: vec![AaxStemConfigMetadata {
                name: "Stereo".to_string(),
                input: "stereo".to_string(),
                output: "stereo".to_string(),
                plugin_id: "TstS".to_string(),
            }],
        }],
        validation: no_disabled_rules(),
    }
}

fn number(value: f64) -> ParameterNumber {
    ParameterNumber { bits: value.to_bits(), text: format!("{}", value) }
}

fn param(id: u32, flags: u32) -> ParameterSchema {
    ParameterSchema {
        id,
        name: format!("Param {}", id),
        flags,
        min_value: number(0.0),
        max_value: number(1.0),
        default_value: number(0.0),
    }
}

fn no_disabled_rules() -> ValidationMetadata {
    ValidationMetadata {
        disabled_rules: DisabledRules::new(),
        clap_validator: ClapValidatorMetadata { skip_test_filter: None, skip_reason: None },
    }
}

fn status_for<'a>(results: &'a [CheckResult], rule_id: &str) -> &'a CheckStatus {
    &results
        .iter()
        .find(|result| result.rule_id == rule_id)
        .expect("rule result should exist")
        .status
}

fn rule_failed(results: &[CheckResult], rule_id: &str) -> bool {
    matches!(status_for(results, rule_id), CheckStatus::Failed(_))
}

fn valid_bypass_param(id: u32) -> ParameterSchema {
    param(id, CLAP_PARAM_IS_BYPASS | CLAP_PARAM_IS_STEPPED | CLAP_PARAM_IS_ENUM)
}

#[test]
fn single_visible_non_bypass_parameter_fails_for_clap_and_vst3() {
    let results = evaluate_checks(
        &schema(vec![param(0, 0), param(1, CLAP_PARAM_IS_BYPASS)]),
        &[ValidateTarget::Clap],
        &no_disabled_rules(),
        "Cargo.toml",
    );
    assert!(rule_failed(&results, RULE_FENDER_SINGLE_KNOB));
}

#[test]
fn single_visible_non_bypass_parameter_is_skipped_for_au_only() {
    let results = evaluate_checks(
        &schema(vec![param(0, 0), valid_bypass_param(1)]),
        &[ValidateTarget::Au],
        &no_disabled_rules(),
        "Cargo.toml",
    );
    assert!(matches!(
        status_for(&results, RULE_FENDER_SINGLE_KNOB),
        CheckStatus::Skipped(_)
    ));
}

#[test]
fn zero_visible_non_bypass_parameters_are_allowed() {
    let results = evaluate_checks(
        &schema(vec![valid_bypass_param(0)]),
        &[ValidateTarget::Clap],
        &no_disabled_rules(),
        "Cargo.toml",
    );
    assert!(matches!(
        status_for(&results, RULE_FENDER_SINGLE_KNOB),
        CheckStatus::Passed
    ));
}

#[test]
fn two_visible_non_bypass_parameters_are_allowed() {
    let results = evaluate_checks(
        &schema(vec![valid_bypass_param(0), param(1, 0), param(2, 0)]),
        &[ValidateTarget::Clap],
        &no_disabled_rules(),
        "Cargo.toml",
    );
    assert!(matches!(
        status_for(&results, RULE_FENDER_SINGLE_KNOB),
        CheckStatus::Passed
    ));
}

#[test]
fn hidden_readonly_and_bypass_parameters_do_not_count_as_visible_knobs() {
    let results = evaluate_checks(
        &schema(vec![
            valid_bypass_param(0),
            param(1, CLAP_PARAM_IS_HIDDEN),
            param(2, CLAP_PARAM_IS_READONLY),
        ]),
        &[ValidateTarget::Clap],
        &no_disabled_rules(),
        "Cargo.toml",
    );
    assert!(matches!(
        status_for(&results, RULE_FENDER_SINGLE_KNOB),
        CheckStatus::Passed
    ));
}

#[test]
fn disabled_rules_are_reported() {
    let mut disabled_rules = DisabledRules::new();
    disabled_rules.insert(
        RULE_FENDER_SINGLE_KNOB.to_string(),
        DisabledValidationRule {
            reason: "not a supported host workflow".to_string(),
        },
    );
    let validation = ValidationMetadata {
        disabled_rules,
        ..no_disabled_rules()
    };
    let results = evaluate_checks(
        &schema(vec![param(0, 0), param(1, CLAP_PARAM_IS_BYPASS)]),
        &[ValidateTarget::Clap],
        &validation,
        "Cargo.toml",
    );
    assert!(matches!(
        status_for(&results, RULE_FENDER_SINGLE_KNOB),
        CheckStatus::Disabled(reason) if reason == "not a supported host workflow"
    ));
}

#[test]
fn vst3_param_id_must_match_index() {
    let results = evaluate_checks(
        &schema(vec![param(1, 0), param(2, 0)]),
        &[ValidateTarget::Vst3],
        &no_disabled_rules(),
        "Cargo.toml",
    );
    assert!(rule_failed(&results, RULE_LUNA_VST3_PARAM_ID_MATCH_INDEX));
}

#[test]
fn vst3_only_rule_is_skipped_without_vst3_target() {
    let results = evaluate_checks(
        &schema(vec![valid_bypass_param(0)]),
        &[ValidateTarget::Clap],
        &no_disabled_rules(),
        "Cargo.toml",
    );
    assert!(matches!(
        status_for(&results, RULE_LUNA_VST3_PARAM_ID_MATCH_INDEX),
        CheckStatus::Skipped(_)
    ));
}

#[test]
fn vst3_param_ids_matching_indices_pass() {
    let results = evaluate_checks(
        &schema(vec![valid_bypass_param(0), param(1, 0)]),
        &[ValidateTarget::Vst3],
        &no_disabled_rules(),
        "Cargo.toml",
    );
    assert!(matches!(
        status_for(&results, RULE_LUNA_VST3_PARAM_ID_MATCH_INDEX),
        CheckStatus::Passed
    ));
}

#[test]
fn bypass_shape_requires_stepped_flag() {
    let results = evaluate_checks(
        &schema(vec![param(0, CLAP_PARAM_IS_BYPASS | CLAP_PARAM_IS_ENUM)]),
        &[ValidateTarget::Clap],
        &no_disabled_rules(),
        "Cargo.toml",
    );
    assert!(rule_failed(&results, RULE_BYPASS_PARAM_SHAPE));
}

#[test]
fn bypass_shape_requires_enum_flag() {
    let results = evaluate_checks(
        &schema(vec![param(0, CLAP_PARAM_IS_BYPASS | CLAP_PARAM_IS_STEPPED)]),
        &[ValidateTarget::Clap],
        &no_disabled_rules(),
        "Cargo.toml",
    );
    assert!(rule_failed(&results, RULE_BYPASS_PARAM_SHAPE));
}

#[test]
fn bypass_shape_requires_boolean_range() {
    let mut bypass = valid_bypass_param(0);
    bypass.max_value = number(2.0);
    let results = evaluate_checks(
        &schema(vec![bypass]),
        &[ValidateTarget::Clap],
        &no_disabled_rules(),
        "Cargo.toml",
    );
    assert!(rule_failed(&results, RULE_BYPASS_PARAM_SHAPE));
}

#[test]
fn bypass_shape_requires_boolean_default() {
    let mut bypass = valid_bypass_param(0);
    bypass.default_value = number(0.5);
    let results = evaluate_checks(
        &schema(vec![bypass]),
        &[ValidateTarget::Clap],
        &no_disabled_rules(),
        "Cargo.toml",
    );
    assert!(rule_failed(&results, RULE_BYPASS_PARAM_SHAPE));
}

#[test]
fn bypass_shape_allows_one_valid_bypass_parameter() {
    let results = evaluate_checks(
        &schema(vec![valid_bypass_param(0)]),
        &[ValidateTarget::Clap],
        &no_disabled_rules(),
        "Cargo.toml",
    );
    assert!(matches!(
        status_for(&results, RULE_BYPASS_PARAM_SHAPE),
        CheckStatus::Passed
    ));
}

#[test]
fn bypass_shape_rejects_multiple_bypass_parameters() {
    let results = evaluate_checks(
        &schema(vec![valid_bypass_param(0), valid_bypass_param(1)]),
        &[ValidateTarget::Clap],
        &no_disabled_rules(),
        "Cargo.toml",
    );
    assert!(rule_failed(&results, RULE_BYPASS_PARAM_SHAPE));
}

#[test]
fn plugin_requires_bypass() {
    let results = evaluate_checks(
        &schema(Vec::new()),
        &[ValidateTarget::Clap],
        &no_disabled_rules(),
        "Cargo.toml",
    );
    assert!(rule_failed(&results, RULE_PLUGIN_REQUIRES_BYPASS));
}

#[test]
fn plugin_requires_bypass_when_only_non_bypass_parameters_exist() {
    let results = evaluate_checks(
        &schema(vec![param(0, 0), param(1, 0)]),
        &[ValidateTarget::Clap],
        &no_disabled_rules(),
        "Cargo.toml",
    );
    assert!(rule_failed(&results, RULE_PLUGIN_REQUIRES_BYPASS));
}

#[test]
fn plugin_requires_bypass_passes_with_valid_bypass_parameter() {
    let results = evaluate_checks(
        &schema(vec![valid_bypass_param(0)]),
        &[ValidateTarget::Clap],
        &no_disabled_rules(),
        "Cargo.toml",
    );
    assert!(matches!(
        status_for(&results, RULE_PLUGIN_REQUIRES_BYPASS),
        CheckStatus::Passed
    ));
}

#[test]
fn placeholder_check_rejects_template_identity() {
    let mut metadata = metadata();
    metadata.package_name = "wrac_gain_plugin".to_string();
    metadata.company_name = "Your Company".to_string();
    metadata.plugins[0].plugin_id = "com.your-company.wrac-gain".to_string();

    let violations = template_placeholder_violations(&metadata, "Cargo.toml");

    assert!(
        violations
            .iter()
            .any(|violation| violation.rule_id == RULE_TEMPLATE_PLACEHOLDERS_RENAMED)
    );
}

#[test]
fn violations_say_what_is_wrong() {
    let results = evaluate_checks(
        &schema(vec![param(0, 0)]),
        &[ValidateTarget::Vst3],
        &no_disabled_rules(),
        "Cargo.toml",
    );
    match status_for(&results, RULE_FENDER_SINGLE_KNOB) {
        CheckStatus::Failed(violations) => {
            assert_eq!(violations.len(), 1);
            assert_eq!(violations[0].plugin_id, "com.example.test");
            assert_eq!(violations[0].location, "Cargo.toml");
            assert_eq!(violations[0].rule_id, RULE_FENDER_SINGLE_KNOB);
        }
        _ => panic!("expected a failure"),
    }
}

#[test]
fn renamed_metadata_has_no_placeholders() {
    let mut metadata = metadata();
    metadata.homepage_url = "https://acme.test/plugin".to_string();
    metadata.manual_url = "https://acme.test/plugin/manual".to_string();
    metadata.support_url = "https://acme.test/support".to_string();
    assert!(template_placeholder_violations(&metadata, "Cargo.toml").is_empty());
    let results = evaluate_source_checks(&metadata, &no_disabled_rules(), "Cargo.toml", None);
    assert!(matches!(
        status_for(&results, RULE_TEMPLATE_PLACEHOLDERS_RENAMED),
        CheckStatus::Passed
    ));
}

#[test]
fn placeholders_fail_the_source_check() {
    let mut metadata = metadata();
    metadata.company_name = "Your Company".to_string();
    let results = evaluate_source_checks(&metadata, &no_disabled_rules(), "Cargo.toml", None);
    assert!(rule_failed(&results, RULE_TEMPLATE_PLACEHOLDERS_RENAMED));
}

#[test]
fn the_template_itself_keeps_its_placeholders() {
    assert!(!is_template_development_checkout(None));
    assert!(!is_template_development_checkout(Some("origin\tgit@github.com:acme/plugin.git")));
    assert!(is_template_development_checkout(Some(
        "origin\thttps://github.com/novonotes/wrac-plugin-template.git (fetch)"
    )));
}

#[test]
fn unknown_disabled_rules_are_rejected() {
    let mut validation = no_disabled_rules();
    assert_eq!(validate_disabled_rules(&validation), Ok(()));
    validation.disabled_rules.insert(
        RULE_BYPASS_PARAM_SHAPE.to_string(),
        DisabledValidationRule { reason: "known".to_string() },
    );
    assert_eq!(validate_disabled_rules(&validation), Ok(()));
    let mut validation = no_disabled_rules();
    validation.disabled_rules.insert(
        "no-such-rule".to_string(),
        DisabledValidationRule { reason: "known".to_string() },
    );
    assert_eq!(
        validate_disabled_rules(&validation),
        Err("unknown WRAC production-readiness rule in disabled_rules: no-such-rule".to_string())
    );
}
