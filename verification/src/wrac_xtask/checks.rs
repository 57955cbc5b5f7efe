//! The production-readiness rules.

use vstd::prelude::*;

use crate::clap_abi::{
    CLAP_PARAM_IS_BYPASS, CLAP_PARAM_IS_ENUM, CLAP_PARAM_IS_HIDDEN, CLAP_PARAM_IS_READONLY,
    CLAP_PARAM_IS_STEPPED,
};
use crate::text::{
    contains, decimal, decimal_text, error_of, join2, join3, occurs_in, same_text, stands_at,
};
use crate::wrac_xtask::metadata::{lookup, PluginMetadata, PluginProductMetadata, ValidationMetadata};
use crate::wrac_xtask::targets::ValidateTarget;

verus! {

pub const RULE_FENDER_SINGLE_KNOB: &'static str = "fender-studio-pro-generic-editor-single-knob";

pub const RULE_LUNA_VST3_PARAM_ID_MATCH_INDEX: &'static str = "luna-vst3-param-id-must-match-index";

pub const RULE_BYPASS_PARAM_SHAPE: &'static str = "bypass-param-shape";

pub const RULE_PLUGIN_REQUIRES_BYPASS: &'static str = "plugin-requires-bypass";

pub const RULE_TEMPLATE_PLACEHOLDERS_RENAMED: &'static str = "template-placeholders-renamed";

/// A parameter value: the bits of its double and the decimal text that shows it.
#[derive(Debug)]
pub struct ParameterNumber {
    pub bits: u64,
    pub text: String,
}

/// One parameter that a plugin exposes to its host.
#[derive(Debug)]
pub struct ParameterSchema {
    pub id: u32,
    pub name: String,
    pub flags: u32,
    pub min_value: ParameterNumber,
    pub max_value: ParameterNumber,
    pub default_value: ParameterNumber,
}

/// What a plugin exposes to its host.
#[derive(Debug)]
pub struct PluginSchema {
    pub plugin_id: String,
    pub plugin_name: String,
    pub params: Vec<ParameterSchema>,
}

/// What was found of one rule.
#[derive(Debug)]
pub struct CheckResult {
    pub plugin_id: String,
    pub plugin_name: String,
    pub rule_id: &'static str,
    pub status: CheckStatus,
}

/// The outcome of one rule.
#[derive(Debug)]
pub enum CheckStatus {
    Passed,
    Failed(Vec<RuleViolation>),
    Skipped(&'static str),
    Disabled(String),
}

/// One place where a rule is broken.
#[derive(Debug)]
pub struct RuleViolation {
    pub plugin_id: String,
    pub plugin_name: String,
    pub location: String,
    pub rule_id: &'static str,
    pub message: String,
    pub fix: &'static str,
}

// Models

/// What a violation says.
pub ghost struct Violation {
    pub plugin_id: Seq<char>,
    pub plugin_name: Seq<char>,
    pub location: Seq<char>,
    pub rule_id: Seq<char>,
    pub message: Seq<char>,
    pub fix: Seq<char>,
}

/// What the outcome of a rule says.
pub ghost enum Outcome {
    Passed,
    Failed(Seq<Violation>),
    Skipped(Seq<char>),
    Disabled(Seq<char>),
}

/// What a result says.
pub ghost struct Finding {
    pub plugin_id: Seq<char>,
    pub plugin_name: Seq<char>,
    pub rule_id: Seq<char>,
    pub outcome: Outcome,
}

impl View for RuleViolation {
    type V = Violation;

    open spec fn view(&self) -> Violation {
        Violation {
            plugin_id: self.plugin_id@,
            plugin_name: self.plugin_name@,
            location: self.location@,
            rule_id: self.rule_id@,
            message: self.message@,
            fix: self.fix@,
        }
    }
}

/// What the violations of a list say.
pub open spec fn violations_of(list: Seq<RuleViolation>) -> Seq<Violation> {
    Seq::new(list.len(), |i: int| list[i]@)
}

impl View for CheckStatus {
    type V = Outcome;

    open spec fn view(&self) -> Outcome {
        match self {
            CheckStatus::Passed => Outcome::Passed,
            CheckStatus::Failed(list) => Outcome::Failed(violations_of(list@)),
            CheckStatus::Skipped(why) => Outcome::Skipped(why@),
            CheckStatus::Disabled(reason) => Outcome::Disabled(reason@),
        }
    }
}

impl View for CheckResult {
    type V = Finding;

    open spec fn view(&self) -> Finding {
        Finding {
            plugin_id: self.plugin_id@,
            plugin_name: self.plugin_name@,
            rule_id: self.rule_id@,
            outcome: self.status@,
        }
    }
}

/// What the results of a list say.
pub open spec fn findings_of(list: Seq<CheckResult>) -> Seq<Finding> {
    Seq::new(list.len(), |i: int| list[i]@)
}

/// The outcome of a rule whose violations are `list`.
pub open spec fn outcome_of(list: Seq<Violation>) -> Outcome {
    if list.len() == 0 {
        Outcome::Passed
    } else {
        Outcome::Failed(list)
    }
}

impl CheckStatus {
    /// A rule passes when it has no violation.
    pub fn from_violations(violations: Vec<RuleViolation>) -> (status: Self)
        ensures
            status@ == outcome_of(violations_of(violations@)),
    {
        if violations.is_empty() {
            CheckStatus::Passed
        } else {
            CheckStatus::Failed(violations)
        }
    }
}

// Parameters

/// Whether any bit of `flag` is set in `flags`.
pub open spec fn has_flag(flags: u32, flag: u32) -> bool {
    flags & flag != 0
}

fn flags_contain(flags: u32, flag: u32) -> (yes: bool)
    ensures
        yes == has_flag(flags, flag),
{
    flags & flag != 0
}

/// Whether the double with these bits differs from 0 by less than 2^-52: its magnitude, which
/// orders as its bits without the sign, is below the bits of 2^-52.
pub open spec fn nearly_zero(bits: u64) -> bool {
    bits as int % 0x8000_0000_0000_0000 < 0x3cb0_0000_0000_0000
}

/// Whether the double with these bits differs from 1 by less than 2^-52: it is 1 itself or the
/// largest double below it.
pub open spec fn nearly_one(bits: u64) -> bool {
    bits == 0x3ff0_0000_0000_0000 || bits == 0x3fef_ffff_ffff_ffff
}

impl ParameterNumber {
    /// Whether the value is zero up to rounding.
    pub fn is_zero(&self) -> (yes: bool)
        ensures
            yes == nearly_zero(self.bits),
    {
        self.bits % 0x8000_0000_0000_0000 < 0x3cb0_0000_0000_0000
    }

    /// Whether the value is one up to rounding.
    pub fn is_one(&self) -> (yes: bool)
        ensures
            yes == nearly_one(self.bits),
    {
        self.bits == 0x3ff0_0000_0000_0000 || self.bits == 0x3fef_ffff_ffff_ffff
    }
}

/// Whether the parameter is the host bypass.
pub open spec fn is_bypass(param: ParameterSchema) -> bool {
    has_flag(param.flags, CLAP_PARAM_IS_BYPASS)
}

/// Whether a generic editor shows a knob for the parameter.
pub open spec fn is_visible_knob(param: ParameterSchema) -> bool {
    &&& !has_flag(param.flags, CLAP_PARAM_IS_HIDDEN)
    &&& !has_flag(param.flags, CLAP_PARAM_IS_READONLY)
    &&& !is_bypass(param)
}

/// How many of the first `n` parameters a generic editor shows as knobs.
pub open spec fn knob_count(params: Seq<ParameterSchema>, n: int) -> nat
    decreases n,
{
    if n <= 0 {
        0
    } else {
        knob_count(params, n - 1) + if is_visible_knob(params[n - 1]) {
            1nat
        } else {
            0nat
        }
    }
}

/// How many of the first `n` parameters are a host bypass.
pub open spec fn bypass_count(params: Seq<ParameterSchema>, n: int) -> nat
    decreases n,
{
    if n <= 0 {
        0
    } else {
        bypass_count(params, n - 1) + if is_bypass(params[n - 1]) {
            1nat
        } else {
            0nat
        }
    }
}

/// Whether a bypass parameter is a stepped enumeration over 0 and 1 with a boolean default.
pub open spec fn has_bypass_shape(param: ParameterSchema) -> bool {
    &&& has_flag(param.flags, CLAP_PARAM_IS_STEPPED)
    &&& has_flag(param.flags, CLAP_PARAM_IS_ENUM)
    &&& nearly_zero(param.min_value.bits)
    &&& nearly_one(param.max_value.bits)
    &&& nearly_zero(param.default_value.bits) || nearly_one(param.default_value.bits)
}

/// `true` or `false`.
pub open spec fn bool_text(value: bool) -> Seq<char> {
    if value {
        "true"@
    } else {
        "false"@
    }
}

fn show_bool(value: bool) -> (text: &'static str)
    ensures
        text@ == bool_text(value),
{
    if value {
        "true"
    } else {
        "false"
    }
}

fn count_knobs(params: &Vec<ParameterSchema>) -> (n: usize)
    ensures
        n == knob_count(params@, params@.len() as int),
{
    let mut n: usize = 0;
    let mut i: usize = 0;
    while i < params.len()
        invariant
            i <= params@.len(),
            n <= i,
            n == knob_count(params@, i as int),
        decreases params@.len() - i,
    {
        let flags = params[i].flags;
        if !flags_contain(flags, CLAP_PARAM_IS_HIDDEN) && !flags_contain(
            flags,
            CLAP_PARAM_IS_READONLY,
        ) && !flags_contain(flags, CLAP_PARAM_IS_BYPASS) {
            n += 1;
        }
        i += 1;
    }
    n
}

fn count_bypass(params: &Vec<ParameterSchema>) -> (n: usize)
    ensures
        n == bypass_count(params@, params@.len() as int),
{
    let mut n: usize = 0;
    let mut i: usize = 0;
    while i < params.len()
        invariant
            i <= params@.len(),
            n <= i,
            n == bypass_count(params@, i as int),
        decreases params@.len() - i,
    {
        if flags_contain(params[i].flags, CLAP_PARAM_IS_BYPASS) {
            n += 1;
        }
        i += 1;
    }
    n
}

// The rules on what a plugin exposes

/// A violation of `rule_id` by the plugin of `schema`.
pub open spec fn schema_violation(
    schema: PluginSchema,
    location: Seq<char>,
    rule_id: Seq<char>,
    message: Seq<char>,
    fix: Seq<char>,
) -> Violation {
    Violation {
        plugin_id: schema.plugin_id@,
        plugin_name: schema.plugin_name@,
        location,
        rule_id,
        message,
        fix,
    }
}

fn violation(
    schema: &PluginSchema,
    location: &str,
    rule_id: &'static str,
    message: String,
    fix: &'static str,
) -> (violation: RuleViolation)
    ensures
        violation@ == schema_violation(*schema, location@, rule_id@, message@, fix@),
{
    RuleViolation {
        plugin_id: schema.plugin_id.clone(),
        plugin_name: schema.plugin_name.clone(),
        location: location.to_owned(),
        rule_id,
        message,
        fix,
    }
}

/// The violations of the single-knob rule: one where exactly one knob is visible.
pub open spec fn single_knob_violations(schema: PluginSchema, location: Seq<char>) -> Seq<
    Violation,
> {
    let knobs = knob_count(schema.params@, schema.params@.len() as int);
    if knobs == 1 {
        seq![
            schema_violation(
                schema,
                location,
                RULE_FENDER_SINGLE_KNOB@,
                "Fender Studio Pro generic editors fail to render knobs when exactly one visible non-bypass parameter is exposed. visible_non_bypass_parameter_count="@
                    + decimal(knobs),
                "Expose zero or at least two visible non-bypass parameters, or disable this rule with a documented reason."@,
            ),
        ]
    } else {
        Seq::empty()
    }
}

/// The message on a parameter whose id is not its position.
pub open spec fn id_mismatch_message(index: nat, param: ParameterSchema) -> Seq<char> {
    "LUNA 2.0.3.4381 VST3 automation writes fail when ParamID differs from parameter index. index="@
        + decimal(index) + " id="@ + decimal(param.id as nat) + " name=\""@ + param.name@ + "\""@
}

/// The violations of the id-matches-index rule by the first `n` parameters.
pub open spec fn id_mismatch_violations(
    schema: PluginSchema,
    location: Seq<char>,
    n: int,
) -> Seq<Violation>
    decreases n,
{
    if n <= 0 {
        Seq::empty()
    } else {
        let before = id_mismatch_violations(schema, location, n - 1);
        let param = schema.params@[n - 1];
        if param.id != (n - 1) as usize as u32 {
            before.push(
                schema_violation(
                    schema,
                    location,
                    RULE_LUNA_VST3_PARAM_ID_MATCH_INDEX@,
                    id_mismatch_message((n - 1) as nat, param),
                    "Keep public VST3 parameter IDs equal to their parameter-list indices."@,
                ),
            )
        } else {
            before
        }
    }
}

/// The message on a bypass parameter of the wrong shape.
pub open spec fn bypass_shape_message(param: ParameterSchema) -> Seq<char> {
    "Bypass parameter must be a stepped enum with range 0..1 and a boolean default. id="@ + decimal(
        param.id as nat,
    ) + " name=\""@ + param.name@ + "\" stepped="@ + bool_text(
        has_flag(param.flags, CLAP_PARAM_IS_STEPPED),
    ) + " enum="@ + bool_text(has_flag(param.flags, CLAP_PARAM_IS_ENUM)) + " min="@
        + param.min_value.text@ + " max="@ + param.max_value.text@ + " default="@
        + param.default_value.text@
}

/// The violation of having more than one bypass parameter, where there is one.
pub open spec fn extra_bypass_violations(schema: PluginSchema, location: Seq<char>) -> Seq<
    Violation,
> {
    let count = bypass_count(schema.params@, schema.params@.len() as int);
    if count > 1 {
        seq![
            schema_violation(
                schema,
                location,
                RULE_BYPASS_PARAM_SHAPE@,
                "Only one bypass parameter may be exposed. bypass_parameter_count="@ + decimal(
                    count,
                ),
                "Expose a single host bypass parameter."@,
            ),
        ]
    } else {
        Seq::empty()
    }
}

/// The violations of the bypass-shape rule by the plugin and its first `n` parameters.
pub open spec fn bypass_shape_violations(
    schema: PluginSchema,
    location: Seq<char>,
    n: int,
) -> Seq<Violation>
    decreases n,
{
    if n <= 0 {
        extra_bypass_violations(schema, location)
    } else {
        let before = bypass_shape_violations(schema, location, n - 1);
        let param = schema.params@[n - 1];
        if is_bypass(param) && !has_bypass_shape(param) {
            before.push(
                schema_violation(
                    schema,
                    location,
                    RULE_BYPASS_PARAM_SHAPE@,
                    bypass_shape_message(param),
                    "Set bypass flags to stepped + enum + bypass, min=0, max=1, and default=0 or 1."@,
                ),
            )
        } else {
            before
        }
    }
}

/// The violations of the bypass-required rule: one where no parameter is a bypass.
pub open spec fn missing_bypass_violations(schema: PluginSchema, location: Seq<char>) -> Seq<
    Violation,
> {
    if bypass_count(schema.params@, schema.params@.len() as int) == 0 {
        seq![
            schema_violation(
                schema,
                location,
                RULE_PLUGIN_REQUIRES_BYPASS@,
                "Production plugins should expose a host bypass parameter."@,
                "Add one bypass parameter, or disable this rule with a documented reason."@,
            ),
        ]
    } else {
        Seq::empty()
    }
}

/// What is reported of a rule: that it is disabled, where it is, and `outcome` otherwise.
pub open spec fn finding(
    validation: ValidationMetadata,
    plugin_id: Seq<char>,
    plugin_name: Seq<char>,
    rule_id: Seq<char>,
    outcome: Outcome,
) -> Finding {
    Finding {
        plugin_id,
        plugin_name,
        rule_id,
        outcome: match lookup(validation.disabled_rules@, rule_id) {
            Some(reason) => Outcome::Disabled(reason),
            None => outcome,
        },
    }
}

/// What is reported of a plugin's schema, rule by rule.
pub open spec fn schema_findings(
    schema: PluginSchema,
    targets: Seq<ValidateTarget>,
    validation: ValidationMetadata,
    location: Seq<char>,
) -> Seq<Finding> {
    let id = schema.plugin_id@;
    let name = schema.plugin_name@;
    let n = schema.params@.len() as int;
    seq![
        finding(
            validation,
            id,
            name,
            RULE_FENDER_SINGLE_KNOB@,
            if targets.contains(ValidateTarget::Clap) || targets.contains(ValidateTarget::Vst3) {
                outcome_of(single_knob_violations(schema, location))
            } else {
                Outcome::Skipped("CLAP or VST3 validation was not requested."@)
            },
        ),
        finding(
            validation,
            id,
            name,
            RULE_LUNA_VST3_PARAM_ID_MATCH_INDEX@,
            if targets.contains(ValidateTarget::Vst3) {
                outcome_of(id_mismatch_violations(schema, location, n))
            } else {
                Outcome::Skipped("VST3 validation was not requested."@)
            },
        ),
        finding(
            validation,
            id,
            name,
            RULE_BYPASS_PARAM_SHAPE@,
            outcome_of(bypass_shape_violations(schema, location, n)),
        ),
        finding(
            validation,
            id,
            name,
            RULE_PLUGIN_REQUIRES_BYPASS@,
            outcome_of(missing_bypass_violations(schema, location)),
        ),
    ]
}

/// Appends what is to be reported of a rule.
fn push_check_result(
    results: &mut Vec<CheckResult>,
    validation: &ValidationMetadata,
    plugin_id: &str,
    plugin_name: &str,
    rule_id: &'static str,
    status: CheckStatus,
)
    ensures
        findings_of(final(results)@) == findings_of(old(results)@).push(
            finding(*validation, plugin_id@, plugin_name@, rule_id@, status@),
        ),
{
    let ghost before = results@;
    let status = match validation.disabled_rules.get(rule_id) {
        Some(reason) => CheckStatus::Disabled(reason.to_owned()),
        None => status,
    };
    results.push(
        CheckResult {
            plugin_id: plugin_id.to_owned(),
            plugin_name: plugin_name.to_owned(),
            rule_id,
            status,
        },
    );
    assert(findings_of(results@) =~= findings_of(before).push(results@.last()@));
}

fn has_target(targets: &[ValidateTarget], target: ValidateTarget) -> (found: bool)
    ensures
        found == targets@.contains(target),
{
    let mut i: usize = 0;
    while i < targets.len()
        invariant
            i <= targets@.len(),
            forall|j: int| 0 <= j < i ==> targets@[j] != target,
        decreases targets@.len() - i,
    {
        if targets[i] == target {
            assert(targets@[i as int] == target);
            return true;
        }
        i += 1;
    }
    false
}

fn check_single_knob(schema: &PluginSchema, location: &str) -> (violations: Vec<RuleViolation>)
    ensures
        violations_of(violations@) == single_knob_violations(*schema, location@),
{
    let mut violations: Vec<RuleViolation> = Vec::new();
    let knobs: usize = count_knobs(&schema.params);
    if knobs == 1 {
        let message = join2(
            "Fender Studio Pro generic editors fail to render knobs when exactly one visible non-bypass parameter is exposed. visible_non_bypass_parameter_count=",
            decimal_text(knobs as u64).as_str(),
        );
        violations.push(
            violation(
                schema,
                location,
                RULE_FENDER_SINGLE_KNOB,
                message,
                "Expose zero or at least two visible non-bypass parameters, or disable this rule with a documented reason.",
            ),
        );
    }
    assert(violations_of(violations@) =~= single_knob_violations(*schema, location@));
    violations
}

fn check_id_matches_index(schema: &PluginSchema, location: &str) -> (violations: Vec<
    RuleViolation,
>)
    ensures
        violations_of(violations@) == id_mismatch_violations(
            *schema,
            location@,
            schema.params@.len() as int,
        ),
{
    let mut violations: Vec<RuleViolation> = Vec::new();
    let mut i: usize = 0;
    assert(violations_of(violations@) =~= Seq::<Violation>::empty());
    while i < schema.params.len()
        invariant
            i <= schema.params@.len(),
            violations_of(violations@) == id_mismatch_violations(*schema, location@, i as int),
        decreases schema.params@.len() - i,
    {
        let param = &schema.params[i];
        if param.id != i as u32 {
            let mut message = join3(
                "LUNA 2.0.3.4381 VST3 automation writes fail when ParamID differs from parameter index. index=",
                decimal_text(i as u64).as_str(),
                " id=",
            );
            message.append(decimal_text(param.id as u64).as_str());
            message.append(" name=\"");
            message.append(param.name.as_str());
            message.append("\"");
            let ghost before = violations@;
            violations.push(
                violation(
                    schema,
                    location,
                    RULE_LUNA_VST3_PARAM_ID_MATCH_INDEX,
                    message,
                    "Keep public VST3 parameter IDs equal to their parameter-list indices.",
                ),
            );
            assert(violations_of(violations@) =~= violations_of(before).push(violations@.last()@));
        }
        i += 1;
    }
    violations
}

fn check_bypass_shape(schema: &PluginSchema, location: &str) -> (violations: Vec<RuleViolation>)
    ensures
        violations_of(violations@) == bypass_shape_violations(
            *schema,
            location@,
            schema.params@.len() as int,
        ),
{
    let mut violations: Vec<RuleViolation> = Vec::new();
    let count: usize = count_bypass(&schema.params);
    if count > 1 {
        let message = join2(
            "Only one bypass parameter may be exposed. bypass_parameter_count=",
            decimal_text(count as u64).as_str(),
        );
        violations.push(
            violation(
                schema,
                location,
                RULE_BYPASS_PARAM_SHAPE,
                message,
                "Expose a single host bypass parameter.",
            ),
        );
    }
    let mut i: usize = 0;
    assert(violations_of(violations@) =~= extra_bypass_violations(*schema, location@));
    while i < schema.params.len()
        invariant
            i <= schema.params@.len(),
            violations_of(violations@) == bypass_shape_violations(*schema, location@, i as int),
        decreases schema.params@.len() - i,
    {
        let param = &schema.params[i];
        if flags_contain(param.flags, CLAP_PARAM_IS_BYPASS) {
            let stepped = flags_contain(param.flags, CLAP_PARAM_IS_STEPPED);
            let enum_flag = flags_contain(param.flags, CLAP_PARAM_IS_ENUM);
            let default_is_boolean = param.default_value.is_zero() || param.default_value.is_one();
            if !stepped || !enum_flag || !param.min_value.is_zero() || !param.max_value.is_one()
                || !default_is_boolean {
                let mut message = join3(
                    "Bypass parameter must be a stepped enum with range 0..1 and a boolean default. id=",
                    decimal_text(param.id as u64).as_str(),
                    " name=\"",
                );
                message.append(param.name.as_str());
                message.append("\" stepped=");
                message.append(show_bool(stepped));
                message.append(" enum=");
                message.append(show_bool(enum_flag));
                message.append(" min=");
                message.append(param.min_value.text.as_str());
                message.append(" max=");
                message.append(param.max_value.text.as_str());
                message.append(" default=");
                message.append(param.default_value.text.as_str());
                let ghost before = violations@;
                violations.push(
                    violation(
                        schema,
                        location,
                        RULE_BYPASS_PARAM_SHAPE,
                        message,
                        "Set bypass flags to stepped + enum + bypass, min=0, max=1, and default=0 or 1.",
                    ),
                );
                assert(violations_of(violations@) =~= violations_of(before).push(
                    violations@.last()@,
                ));
            }
        }
        i += 1;
    }
    violations
}

fn check_bypass_present(schema: &PluginSchema, location: &str) -> (violations: Vec<RuleViolation>)
    ensures
        violations_of(violations@) == missing_bypass_violations(*schema, location@),
{
    let mut violations: Vec<RuleViolation> = Vec::new();
    if count_bypass(&schema.params) == 0 {
        violations.push(
            violation(
                schema,
                location,
                RULE_PLUGIN_REQUIRES_BYPASS,
                "Production plugins should expose a host bypass parameter.".to_owned(),
                "Add one bypass parameter, or disable this rule with a documented reason.",
            ),
        );
    }
    assert(violations_of(violations@) =~= missing_bypass_violations(*schema, location@));
    violations
}

/// Applies the rules on what a plugin exposes. A rule that does not concern the targets is
/// reported as skipped, so that every rule has a result.
pub fn evaluate_checks(
    schema: &PluginSchema,
    targets: &[ValidateTarget],
    validation: &ValidationMetadata,
    location: &str,
) -> (results: Vec<CheckResult>)
    ensures
        findings_of(results@) == schema_findings(*schema, targets@, *validation, location@),
{
    let mut results: Vec<CheckResult> = Vec::new();
    let id = schema.plugin_id.as_str();
    let name = schema.plugin_name.as_str();
    let vst3 = has_target(targets, ValidateTarget::Vst3);
    let single_knob = if vst3 || has_target(targets, ValidateTarget::Clap) {
        CheckStatus::from_violations(check_single_knob(schema, location))
    } else {
        CheckStatus::Skipped("CLAP or VST3 validation was not requested.")
    };
    push_check_result(&mut results, validation, id, name, RULE_FENDER_SINGLE_KNOB, single_knob);
    let id_matches_index = if vst3 {
        CheckStatus::from_violations(check_id_matches_index(schema, location))
    } else {
        CheckStatus::Skipped("VST3 validation was not requested.")
    };
    push_check_result(
        &mut results,
        validation,
        id,
        name,
        RULE_LUNA_VST3_PARAM_ID_MATCH_INDEX,
        id_matches_index,
    );
    let bypass_shape = CheckStatus::from_violations(check_bypass_shape(schema, location));
    push_check_result(&mut results, validation, id, name, RULE_BYPASS_PARAM_SHAPE, bypass_shape);
    let bypass_present = CheckStatus::from_violations(check_bypass_present(schema, location));
    push_check_result(
        &mut results,
        validation,
        id,
        name,
        RULE_PLUGIN_REQUIRES_BYPASS,
        bypass_present,
    );
    assert(findings_of(results@) =~= schema_findings(*schema, targets@, *validation, location@));
    results
}

// The rule on leftovers of the template

/// A metadata field and the text by which the template filled it.
struct TemplateField<'a> {
    name: &'static str,
    value: &'a str,
    placeholder: &'static str,
}

/// A metadata field, what it holds, and the text by which the template filled it.
pub ghost struct Field {
    pub name: Seq<char>,
    pub value: Seq<char>,
    pub placeholder: Seq<char>,
}

impl<'a> View for TemplateField<'a> {
    type V = Field;

    closed spec fn view(&self) -> Field {
        Field { name: self.name@, value: self.value@, placeholder: self.placeholder@ }
    }
}

spec fn fields_of(list: Seq<TemplateField>) -> Seq<Field> {
    Seq::new(list.len(), |i: int| list[i]@)
}

/// The repository that the metadata names, or no text.
pub open spec fn repository_text(metadata: PluginMetadata) -> Seq<char> {
    match metadata.repository {
        Some(repository) => repository@,
        None => Seq::empty(),
    }
}

/// The fields of the product itself that the template fills.
pub open spec fn product_fields(metadata: PluginMetadata) -> Seq<Field> {
    seq![
        Field { name: "package.name"@, value: metadata.package_name@, placeholder: "wrac_gain_plugin"@ },
        Field { name: "package.repository"@, value: repository_text(metadata), placeholder: "github.com/novonotes/wrac-plugin-template"@ },
        Field { name: "package.metadata.wrac.company_name"@, value: metadata.company_name@, placeholder: "Your Company"@ },
        Field { name: "package.metadata.wrac.auv2_manufacturer_code"@, value: metadata.auv2_manufacturer_code@, placeholder: "YrCo"@ },
        Field { name: "package.metadata.wrac.aax_manufacturer_id"@, value: metadata.aax_manufacturer_id@, placeholder: "YrCo"@ },
        Field { name: "package.metadata.wrac.bundle_identifier"@, value: metadata.bundle_identifier@, placeholder: "com.your-company"@ },
        Field { name: "package.metadata.wrac.homepage_url"@, value: metadata.homepage_url@, placeholder: "example.com"@ },
        Field { name: "package.metadata.wrac.manual_url"@, value: metadata.manual_url@, placeholder: "example.com"@ },
        Field { name: "package.metadata.wrac.support_url"@, value: metadata.support_url@, placeholder: "example.com"@ },
        Field { name: "package.metadata.wrac.copyright"@, value: metadata.copyright@, placeholder: "Your Company"@ },
        Field { name: "package.metadata.wrac.bundle_name"@, value: metadata.bundle_name@, placeholder: "WRAC Gain"@ },
    ]
}

/// The stem configuration fields that the template fills, of the first `n` configurations.
pub open spec fn stem_fields(plugin: PluginProductMetadata, n: int) -> Seq<Field>
    decreases n,
{
    if n <= 0 {
        Seq::empty()
    } else {
        stem_fields(plugin, n - 1).push(
            Field {
                name: "package.metadata.wrac.plugins.aax_stem_configs.plugin_id"@,
                value: plugin.aax_stem_configs@[n - 1].plugin_id@,
                placeholder: "WtG"@,
            },
        )
    }
}

/// The fields of one plugin that come before its stem configurations.
pub open spec fn identity_fields(plugin: PluginProductMetadata) -> Seq<Field> {
    seq![
        Field { name: "package.metadata.wrac.plugins.plugin_id"@, value: plugin.plugin_id@, placeholder: "com.your-company"@ },
        Field { name: "package.metadata.wrac.plugins.plugin_name"@, value: plugin.plugin_name@, placeholder: "WRAC Gain"@ },
        Field { name: "package.metadata.wrac.plugins.standalone_name"@, value: plugin.standalone_name@, placeholder: "WRAC Gain"@ },
        Field { name: "package.metadata.wrac.plugins.auv2_subtype"@, value: plugin.auv2_subtype@, placeholder: "WtGn"@ },
        Field { name: "package.metadata.wrac.plugins.aax_product_id"@, value: plugin.aax_product_id@, placeholder: "WtGn"@ },
    ]
}

/// The component id of one plugin, held against the two ids that the template has used.
pub open spec fn component_fields(plugin: PluginProductMetadata) -> Seq<Field> {
    seq![
        Field { name: "package.metadata.wrac.plugins.vst3_component_id"@, value: plugin.vst3_component_id@, placeholder: "822011ca-37ec-5cef-92d7-ec7e67207195"@ },
        Field { name: "package.metadata.wrac.plugins.vst3_component_id"@, value: plugin.vst3_component_id@, placeholder: "ffff664c-b963-53e6-87cc-2a7ceb29674b"@ },
    ]
}

/// The fields of one plugin that the template fills.
pub open spec fn plugin_fields(plugin: PluginProductMetadata) -> Seq<Field> {
    identity_fields(plugin) + stem_fields(plugin, plugin.aax_stem_configs@.len() as int)
        + component_fields(plugin)
}

/// The fields of the product and its first `n` plugins that the template fills.
pub open spec fn template_fields(metadata: PluginMetadata, n: int) -> Seq<Field>
    decreases n,
{
    if n <= 0 {
        product_fields(metadata)
    } else {
        template_fields(metadata, n - 1) + plugin_fields(metadata.plugins@[n - 1])
    }
}

/// Whether a field still holds the text of the template.
pub open spec fn is_leftover(field: Field) -> bool {
    occurs_in(field.placeholder, field.value)
}

/// The violation that a field with the text of the template is.
pub open spec fn leftover_violation(
    metadata: PluginMetadata,
    location: Seq<char>,
    field: Field,
) -> Violation {
    Violation {
        plugin_id: metadata.plugins@[0].plugin_id@,
        plugin_name: metadata.bundle_name@,
        location,
        rule_id: RULE_TEMPLATE_PLACEHOLDERS_RENAMED@,
        message: field.name + " still contains template placeholder \""@ + field.placeholder
            + "\". value=\""@ + field.value + "\""@,
        fix: "Rename template placeholder metadata before shipping, or disable this rule with a documented reason for template/example repositories."@,
    }
}

/// The violations among `fields`, in order.
pub open spec fn leftover_violations(
    metadata: PluginMetadata,
    location: Seq<char>,
    fields: Seq<Field>,
) -> Seq<Violation>
    decreases fields.len(),
{
    if fields.len() == 0 {
        Seq::empty()
    } else {
        let before = leftover_violations(metadata, location, fields.drop_last());
        if is_leftover(fields.last()) {
            before.push(leftover_violation(metadata, location, fields.last()))
        } else {
            before
        }
    }
}

fn push_product_fields<'a>(fields: &mut Vec<TemplateField<'a>>, metadata: &'a PluginMetadata)
    ensures
        fields_of(final(fields)@) == fields_of(old(fields)@) + product_fields(*metadata),
{
    let ghost before = fields_of(fields@);
    let repository: &'a str = match &metadata.repository {
        Some(repository) => repository.as_str(),
        None => "",
    };
    proof {
        reveal_strlit("");
        assert(repository@ =~= repository_text(*metadata));
    }
    fields.push(
        TemplateField {
            name: "package.name",
            value: metadata.package_name.as_str(),
            placeholder: "wrac_gain_plugin",
        },
    );
    fields.push(
        TemplateField {
            name: "package.repository",
            value: repository,
            placeholder: "github.com/novonotes/wrac-plugin-template",
        },
    );
    fields.push(
        TemplateField {
            name: "package.metadata.wrac.company_name",
            value: metadata.company_name.as_str(),
            placeholder: "Your Company",
        },
    );
    fields.push(
        TemplateField {
            name: "package.metadata.wrac.auv2_manufacturer_code",
            value: metadata.auv2_manufacturer_code.as_str(),
            placeholder: "YrCo",
        },
    );
    fields.push(
        TemplateField {
            name: "package.metadata.wrac.aax_manufacturer_id",
            value: metadata.aax_manufacturer_id.as_str(),
            placeholder: "YrCo",
        },
    );
    fields.push(
        TemplateField {
            name: "package.metadata.wrac.bundle_identifier",
            value: metadata.bundle_identifier.as_str(),
            placeholder: "com.your-company",
        },
    );
    fields.push(
        TemplateField {
            name: "package.metadata.wrac.homepage_url",
            value: metadata.homepage_url.as_str(),
            placeholder: "example.com",
        },
    );
    fields.push(
        TemplateField {
            name: "package.metadata.wrac.manual_url",
            value: metadata.manual_url.as_str(),
            placeholder: "example.com",
        },
    );
    fields.push(
        TemplateField {
            name: "package.metadata.wrac.support_url",
            value: metadata.support_url.as_str(),
            placeholder: "example.com",
        },
    );
    fields.push(
        TemplateField {
            name: "package.metadata.wrac.copyright",
            value: metadata.copyright.as_str(),
            placeholder: "Your Company",
        },
    );
    fields.push(
        TemplateField {
            name: "package.metadata.wrac.bundle_name",
            value: metadata.bundle_name.as_str(),
            placeholder: "WRAC Gain",
        },
    );
    assert(fields_of(fields@) =~= before + product_fields(*metadata));
}

fn push_plugin_fields<'a>(fields: &mut Vec<TemplateField<'a>>, plugin: &'a PluginProductMetadata)
    ensures
        fields_of(final(fields)@) == fields_of(old(fields)@) + plugin_fields(*plugin),
{
    let ghost before = fields_of(fields@);
    fields.push(
        TemplateField {
            name: "package.metadata.wrac.plugins.plugin_id",
            value: plugin.plugin_id.as_str(),
            placeholder: "com.your-company",
        },
    );
    fields.push(
        TemplateField {
            name: "package.metadata.wrac.plugins.plugin_name",
            value: plugin.plugin_name.as_str(),
            placeholder: "WRAC Gain",
        },
    );
    fields.push(
        TemplateField {
            name: "package.metadata.wrac.plugins.standalone_name",
            value: plugin.standalone_name.as_str(),
            placeholder: "WRAC Gain",
        },
    );
    fields.push(
        TemplateField {
            name: "package.metadata.wrac.plugins.auv2_subtype",
            value: plugin.auv2_subtype.as_str(),
            placeholder: "WtGn",
        },
    );
    fields.push(
        TemplateField {
            name: "package.metadata.wrac.plugins.aax_product_id",
            value: plugin.aax_product_id.as_str(),
            placeholder: "WtGn",
        },
    );
    let ghost with_identity = before + identity_fields(*plugin);
    assert(fields_of(fields@) =~= with_identity);
    assert(with_identity + stem_fields(*plugin, 0) =~= with_identity);
    let mut i: usize = 0;
    while i < plugin.aax_stem_configs.len()
        invariant
            i <= plugin.aax_stem_configs@.len(),
            fields_of(fields@) == with_identity + stem_fields(*plugin, i as int),
        decreases plugin.aax_stem_configs@.len() - i,
    {
        let ghost earlier = fields@;
        fields.push(
            TemplateField {
                name: "package.metadata.wrac.plugins.aax_stem_configs.plugin_id",
                value: plugin.aax_stem_configs[i].plugin_id.as_str(),
                placeholder: "WtG",
            },
        );
        assert(fields_of(fields@) =~= fields_of(earlier).push(fields@.last()@));
        assert(fields_of(fields@) =~= with_identity + stem_fields(*plugin, i + 1));
        i += 1;
    }
    let ghost with_stems = fields_of(fields@);
    fields.push(
        TemplateField {
            name: "package.metadata.wrac.plugins.vst3_component_id",
            value: plugin.vst3_component_id.as_str(),
            placeholder: "822011ca-37ec-5cef-92d7-ec7e67207195",
        },
    );
    fields.push(
        TemplateField {
            name: "package.metadata.wrac.plugins.vst3_component_id",
            value: plugin.vst3_component_id.as_str(),
            placeholder: "ffff664c-b963-53e6-87cc-2a7ceb29674b",
        },
    );
    assert(fields_of(fields@) =~= with_stems + component_fields(*plugin));
    assert(fields_of(fields@) =~= before + plugin_fields(*plugin));
}

/// The metadata fields that still hold the text by which the template filled them.
pub fn template_placeholder_violations(
    metadata: &PluginMetadata,
    location: &str,
) -> (violations: Vec<RuleViolation>)
    requires
        metadata.plugins@.len() > 0,
    ensures
        violations_of(violations@) == leftover_violations(
            *metadata,
            location@,
            template_fields(*metadata, metadata.plugins@.len() as int),
        ),
{
    let mut fields: Vec<TemplateField> = Vec::new();
    push_product_fields(&mut fields, metadata);
    assert(fields_of(fields@) =~= product_fields(*metadata));
    let mut i: usize = 0;
    while i < metadata.plugins.len()
        invariant
            i <= metadata.plugins@.len(),
            fields_of(fields@) == template_fields(*metadata, i as int),
        decreases metadata.plugins@.len() - i,
    {
        push_plugin_fields(&mut fields, &metadata.plugins[i]);
        i += 1;
    }
    let ghost all = fields_of(fields@);
    let mut violations: Vec<RuleViolation> = Vec::new();
    let mut k: usize = 0;
    assert(violations_of(violations@) =~= Seq::<Violation>::empty());
    while k < fields.len()
        invariant
            metadata.plugins@.len() > 0,
            k <= fields@.len(),
            all == fields_of(fields@),
            violations_of(violations@) == leftover_violations(
                *metadata,
                location@,
                all.take(k as int),
            ),
        decreases fields@.len() - k,
    {
        assert(all.take(k + 1).drop_last() =~= all.take(k as int));
        assert(all.take(k + 1).last() == fields@[k as int]@);
        check_template_placeholder(&mut violations, metadata, location, &fields[k]);
        k += 1;
    }
    assert(all.take(k as int) =~= all);
    violations
}

fn check_template_placeholder(
    violations: &mut Vec<RuleViolation>,
    metadata: &PluginMetadata,
    location: &str,
    field: &TemplateField,
)
    requires
        metadata.plugins@.len() > 0,
    ensures
        violations_of(final(violations)@) == if is_leftover(field@) {
            violations_of(old(violations)@).push(leftover_violation(*metadata, location@, field@))
        } else {
            violations_of(old(violations)@)
        },
{
    if contains(field.value, field.placeholder) {
        let ghost before = violations@;
        let mut message = join3(field.name, " still contains template placeholder \"", field.placeholder);
        message.append("\". value=\"");
        message.append(field.value);
        message.append("\"");
        violations.push(
            RuleViolation {
                plugin_id: metadata.bundle_identity_plugin().plugin_id.clone(),
                plugin_name: metadata.bundle_name.clone(),
                location: location.to_owned(),
                rule_id: RULE_TEMPLATE_PLACEHOLDERS_RENAMED,
                message,
                fix: "Rename template placeholder metadata before shipping, or disable this rule with a documented reason for template/example repositories.",
            },
        );
        assert(violations_of(violations@) =~= violations_of(before).push(violations@.last()@));
    }
}

/// Whether a list of git remotes names the repository of the template itself.
pub open spec fn names_template_repository(remotes: Seq<char>) -> bool {
    ||| occurs_in("github.com/novonotes/wrac-plugin-template"@, remotes)
    ||| occurs_in("github.com/satoshi-szk/wrac-plugin-template"@, remotes)
    ||| occurs_in("github.com/satoshi-assistant/wrac-plugin-template"@, remotes)
}

/// Whether a checkout is one of the template itself. `remotes` is what `git remote -v`
/// printed, or `None` where the command could not be run or failed.
pub fn is_template_development_checkout(remotes: Option<&str>) -> (yes: bool)
    ensures
        yes == (remotes matches Some(text) && names_template_repository(text@)),
{
    match remotes {
        None => false,
        Some(text) => contains(text, "github.com/novonotes/wrac-plugin-template") || contains(
            text,
            "github.com/satoshi-szk/wrac-plugin-template",
        ) || contains(text, "github.com/satoshi-assistant/wrac-plugin-template"),
    }
}

/// What is reported of the metadata.
pub open spec fn source_finding(
    metadata: PluginMetadata,
    validation: ValidationMetadata,
    location: Seq<char>,
    template_checkout: bool,
) -> Finding {
    finding(
        validation,
        metadata.plugins@[0].plugin_id@,
        metadata.bundle_name@,
        RULE_TEMPLATE_PLACEHOLDERS_RENAMED@,
        if template_checkout {
            Outcome::Skipped(
                "Template placeholder metadata is expected in the template repository itself."@,
            )
        } else {
            outcome_of(
                leftover_violations(
                    metadata,
                    location,
                    template_fields(metadata, metadata.plugins@.len() as int),
                ),
            )
        },
    )
}

/// Applies the rules on the metadata. `remotes` is what `git remote -v` printed in the
/// repository, or `None` where the command could not be run or failed.
pub fn evaluate_source_checks(
    metadata: &PluginMetadata,
    validation: &ValidationMetadata,
    location: &str,
    remotes: Option<&str>,
) -> (results: Vec<CheckResult>)
    requires
        metadata.plugins@.len() > 0,
    ensures
        findings_of(results@) == seq![
            source_finding(
                *metadata,
                *validation,
                location@,
                remotes matches Some(text) && names_template_repository(text@),
            ),
        ],
{
    let mut results: Vec<CheckResult> = Vec::new();
    let status = if is_template_development_checkout(remotes) {
        CheckStatus::Skipped(
            "Template placeholder metadata is expected in the template repository itself.",
        )
    } else {
        CheckStatus::from_violations(template_placeholder_violations(metadata, location))
    };
    push_check_result(
        &mut results,
        validation,
        metadata.bundle_identity_plugin().plugin_id.as_str(),
        metadata.bundle_name.as_str(),
        RULE_TEMPLATE_PLACEHOLDERS_RENAMED,
        status,
    );
    assert(findings_of(results@) =~= seq![findings_of(results@)[0]]);
    results
}

// Disabling rules

/// Whether `rule_id` is one of the rules.
pub open spec fn is_known_rule(rule_id: Seq<char>) -> bool {
    ||| rule_id == RULE_FENDER_SINGLE_KNOB@
    ||| rule_id == RULE_LUNA_VST3_PARAM_ID_MATCH_INDEX@
    ||| rule_id == RULE_BYPASS_PARAM_SHAPE@
    ||| rule_id == RULE_PLUGIN_REQUIRES_BYPASS@
    ||| rule_id == RULE_TEMPLATE_PLACEHOLDERS_RENAMED@
}

/// The error of the first disabled rule from position `i` on that does not exist.
pub open spec fn disabled_rules_error(rules: Seq<(Seq<char>, Seq<char>)>, i: int) -> Option<
    Seq<char>,
>
    decreases rules.len() - i,
{
    if i < 0 || i >= rules.len() {
        None
    } else if !is_known_rule(rules[i].0) {
        Some("unknown WRAC production-readiness rule in disabled_rules: "@ + rules[i].0)
    } else {
        disabled_rules_error(rules, i + 1)
    }
}

/// Accepts metadata that disables only rules that exist.
pub fn validate_disabled_rules(validation: &ValidationMetadata) -> (result: Result<(), String>)
    ensures
        error_of(result) == disabled_rules_error(validation.disabled_rules@, 0),
{
    let rules = &validation.disabled_rules;
    let count: usize = rules.len();
    let mut i: usize = 0;
    while i < count
        invariant
            i <= count == rules@.len(),
            *rules == validation.disabled_rules,
            disabled_rules_error(rules@, 0) == disabled_rules_error(rules@, i as int),
        decreases count - i,
    {
        let (rule_id, _) = rules.entry(i);
        let known = same_text(rule_id, RULE_FENDER_SINGLE_KNOB) || same_text(
            rule_id,
            RULE_LUNA_VST3_PARAM_ID_MATCH_INDEX,
        ) || same_text(rule_id, RULE_BYPASS_PARAM_SHAPE) || same_text(
            rule_id,
            RULE_PLUGIN_REQUIRES_BYPASS,
        ) || same_text(rule_id, RULE_TEMPLATE_PLACEHOLDERS_RENAMED);
        if !known {
            return Err(
                join2("unknown WRAC production-readiness rule in disabled_rules: ", rule_id),
            );
        }
        i += 1;
    }
    Ok(())
}

// What every report guarantees

/// Every report on a schema names each of the four schema rules, in a fixed order, whatever
/// the targets are and whichever rules are disabled. A rule is reported as disabled exactly
/// where the metadata disables it, with the reason that the metadata gives.
pub proof fn every_rule_is_reported(
    schema: PluginSchema,
    targets: Seq<ValidateTarget>,
    validation: ValidationMetadata,
    location: Seq<char>,
)
    ensures
        ({
            let findings = schema_findings(schema, targets, validation, location);
            &&& findings.len() == 4
            &&& findings[0].rule_id == RULE_FENDER_SINGLE_KNOB@
            &&& findings[1].rule_id == RULE_LUNA_VST3_PARAM_ID_MATCH_INDEX@
            &&& findings[2].rule_id == RULE_BYPASS_PARAM_SHAPE@
            &&& findings[3].rule_id == RULE_PLUGIN_REQUIRES_BYPASS@
            &&& forall|i: int|
                0 <= i < 4 ==> {
                    let f = #[trigger] findings[i];
                    &&& f.plugin_id == schema.plugin_id@
                    &&& f.plugin_name == schema.plugin_name@
                    &&& match lookup(validation.disabled_rules@, f.rule_id) {
                        Some(reason) => f.outcome == Outcome::Disabled(reason),
                        None => !(f.outcome is Disabled),
                    }
                }
        }),
{
}

/// The placeholder rule is broken exactly where some field still holds the text of the
/// template.
pub proof fn leftovers_fail_the_rule(
    metadata: PluginMetadata,
    location: Seq<char>,
    fields: Seq<Field>,
)
    ensures
        leftover_violations(metadata, location, fields).len() == 0 <==> forall|i: int|
            0 <= i < fields.len() ==> !is_leftover(#[trigger] fields[i]),
    decreases fields.len(),
{
    if fields.len() > 0 {
        leftovers_fail_the_rule(metadata, location, fields.drop_last());
        let shorter = fields.drop_last();
        assert(forall|i: int| 0 <= i < shorter.len() ==> #[trigger] shorter[i] == fields[i]);
        if leftover_violations(metadata, location, fields).len() == 0 {
            assert forall|i: int| 0 <= i < fields.len() implies !is_leftover(
                #[trigger] fields[i],
            ) by {
                if i < shorter.len() {
                    assert(shorter[i] == fields[i]);
                }
            }
        }
    }
}

// What the rules mean for the bits of a parameter

/// Whether a parameter has none of the bits by which a generic editor passes it over.
pub open spec fn is_free_of_marks(flags: u32) -> bool {
    &&& flags & CLAP_PARAM_IS_HIDDEN == 0
    &&& flags & CLAP_PARAM_IS_READONLY == 0
    &&& flags & CLAP_PARAM_IS_BYPASS == 0
}

/// A hidden, a read-only and a bypass parameter is no knob, and every other one is. The marks are
/// three bits, each its own.
pub proof fn knobs_are_free_of_marks(param: ParameterSchema)
    ensures
        param.flags & CLAP_PARAM_IS_HIDDEN != 0 ==> !is_visible_knob(param),
        param.flags & CLAP_PARAM_IS_READONLY != 0 ==> !is_visible_knob(param),
        param.flags & CLAP_PARAM_IS_BYPASS != 0 ==> !is_visible_knob(param),
        is_free_of_marks(param.flags) ==> is_visible_knob(param),
        CLAP_PARAM_IS_STEPPED == 1 && CLAP_PARAM_IS_HIDDEN == 4 && CLAP_PARAM_IS_READONLY == 8
            && CLAP_PARAM_IS_BYPASS == 16 && CLAP_PARAM_IS_ENUM == 65536,
{
}

/// A parameter with a mark, put behind the others, leaves the single-knob rule as it is, and one
/// without adds one to the knobs that it counts.
pub proof fn marked_parameters_do_not_count_as_knobs(
    params: Seq<ParameterSchema>,
    param: ParameterSchema,
)
    ensures
        ({
            let more = params.push(param);
            let count = knob_count(params, params.len() as int);
            let count_after = knob_count(more, more.len() as int);
            &&& param.flags & CLAP_PARAM_IS_HIDDEN != 0 ==> count_after == count
            &&& param.flags & CLAP_PARAM_IS_READONLY != 0 ==> count_after == count
            &&& param.flags & CLAP_PARAM_IS_BYPASS != 0 ==> count_after == count
            &&& is_free_of_marks(param.flags) ==> count_after == count + 1
        }),
{
    lemma_knobs_of_front(params, params.push(param), params.len() as int);
}

proof fn lemma_knobs_of_front(a: Seq<ParameterSchema>, b: Seq<ParameterSchema>, n: int)
    requires
        0 <= n <= a.len(),
        n <= b.len(),
        forall|i: int| 0 <= i < n ==> a[i] == b[i],
    ensures
        knob_count(a, n) == knob_count(b, n),
        bypass_count(a, n) == bypass_count(b, n),
    decreases n,
{
    if n > 0 {
        lemma_knobs_of_front(a, b, n - 1);
    }
}

/// The single-knob rule for CLAP and VST3: a plugin fails it where exactly one of its parameters
/// is free of marks, and passes it where none is, or two or more are. For other targets alone it is
/// skipped.
pub proof fn exactly_one_knob_fails(
    schema: PluginSchema,
    targets: Seq<ValidateTarget>,
    validation: ValidationMetadata,
    location: Seq<char>,
    one: int,
    other: int,
)
    requires
        lookup(validation.disabled_rules@, RULE_FENDER_SINGLE_KNOB@) is None,
    ensures
        ({
            let params = schema.params@;
            let outcome = schema_findings(schema, targets, validation, location)[0].outcome;
            let asked = targets.contains(ValidateTarget::Clap) || targets.contains(
                ValidateTarget::Vst3,
            );
            let is_knob = |i: int| 0 <= i < params.len() && is_free_of_marks(params[i].flags);
            &&& asked && is_knob(one) && (forall|i: int| #[trigger] is_knob(i) ==> i == one)
                ==> outcome is Failed && outcome->Failed_0.len() == 1
            &&& asked && (forall|i: int| !(#[trigger] is_knob(i))) ==> outcome is Passed
            &&& asked && is_knob(one) && is_knob(other) && one != other ==> outcome is Passed
            &&& !asked ==> outcome is Skipped
        }),
{
    let params = schema.params@;
    let n = params.len() as int;
    lemma_knobs(params, n, one, other);
    let is_knob = |i: int| 0 <= i < params.len() && is_free_of_marks(params[i].flags);
    assert forall|i: int| 0 <= i < n && is_visible_knob(params[i]) implies is_knob(i) by {}
}

proof fn lemma_knobs(params: Seq<ParameterSchema>, n: int, one: int, other: int)
    requires
        0 <= n <= params.len(),
    ensures
        (forall|i: int| 0 <= i < n ==> !is_visible_knob(#[trigger] params[i])) ==> knob_count(
            params,
            n,
        ) == 0,
        0 <= one < n && is_visible_knob(params[one]) ==> knob_count(params, n) >= 1,
        0 <= one < n && is_visible_knob(params[one]) && (forall|i: int|
            0 <= i < n && i != one ==> !is_visible_knob(#[trigger] params[i])) ==> knob_count(
            params,
            n,
        ) == 1,
        0 <= one < n && 0 <= other < n && one != other && is_visible_knob(params[one])
            && is_visible_knob(params[other]) ==> knob_count(params, n) >= 2,
    decreases n,
{
    if n > 0 {
        lemma_knobs(params, n - 1, one, other);
        lemma_knobs(params, n - 1, other, one);
    }
}

/// The bypass-required rule: a plugin fails it exactly where none of its parameters has the bypass
/// bit.
pub proof fn a_plugin_without_bypass_fails(
    schema: PluginSchema,
    targets: Seq<ValidateTarget>,
    validation: ValidationMetadata,
    location: Seq<char>,
    one: int,
)
    requires
        lookup(validation.disabled_rules@, RULE_PLUGIN_REQUIRES_BYPASS@) is None,
    ensures
        ({
            let params = schema.params@;
            let outcome = schema_findings(schema, targets, validation, location)[3].outcome;
            &&& (forall|i: int|
                0 <= i < params.len() ==> (#[trigger] params[i]).flags & CLAP_PARAM_IS_BYPASS == 0)
                ==> outcome is Failed && outcome->Failed_0.len() == 1
            &&& 0 <= one < params.len() && params[one].flags & CLAP_PARAM_IS_BYPASS != 0
                ==> outcome is Passed
        }),
{
    lemma_bypasses(schema.params@, schema.params@.len() as int, one, one);
}

proof fn lemma_bypasses(params: Seq<ParameterSchema>, n: int, one: int, other: int)
    requires
        0 <= n <= params.len(),
    ensures
        (forall|i: int|
            0 <= i < n ==> (#[trigger] params[i]).flags & CLAP_PARAM_IS_BYPASS == 0)
            ==> bypass_count(params, n) == 0,
        (forall|i: int|
            0 <= i < n && i != one ==> (#[trigger] params[i]).flags & CLAP_PARAM_IS_BYPASS == 0)
            ==> bypass_count(params, n) <= 1,
        0 <= one < n && params[one].flags & CLAP_PARAM_IS_BYPASS != 0 ==> bypass_count(params, n)
            >= 1,
        0 <= one < n && 0 <= other < n && one != other && params[one].flags & CLAP_PARAM_IS_BYPASS
            != 0 && params[other].flags & CLAP_PARAM_IS_BYPASS != 0 ==> bypass_count(params, n)
            >= 2,
    decreases n,
{
    if n > 0 {
        lemma_bypasses(params, n - 1, one, other);
        lemma_bypasses(params, n - 1, other, one);
    }
}

/// Whether a bypass parameter is a choice of the two values 0 and 1 that begins at one of them: it
/// is stepped, it is an enumeration, and its values are the doubles 0 and 1 up to rounding.
pub open spec fn is_a_switch(param: ParameterSchema) -> bool {
    &&& param.flags & CLAP_PARAM_IS_STEPPED != 0
    &&& param.flags & CLAP_PARAM_IS_ENUM != 0
    &&& is_bits_of_zero(param.min_value.bits)
    &&& is_bits_of_one(param.max_value.bits)
    &&& is_bits_of_zero(param.default_value.bits) || is_bits_of_one(param.default_value.bits)
}

/// Whether the double with these bits, its sign aside, is less than 2^-52.
pub open spec fn is_bits_of_zero(bits: u64) -> bool {
    bits < 0x3cb0_0000_0000_0000 || 0x8000_0000_0000_0000 <= bits < 0xbcb0_0000_0000_0000
}

/// Whether the double with these bits is 1 or the one right below.
pub open spec fn is_bits_of_one(bits: u64) -> bool {
    0x3fef_ffff_ffff_ffff <= bits <= 0x3ff0_0000_0000_0000
}

/// The bypass-shape rule: a plugin passes it exactly where at most one of its parameters has the
/// bypass bit, and that one is a switch.
pub proof fn a_bypass_that_is_no_switch_fails(
    schema: PluginSchema,
    targets: Seq<ValidateTarget>,
    validation: ValidationMetadata,
    location: Seq<char>,
    one: int,
    other: int,
)
    requires
        lookup(validation.disabled_rules@, RULE_BYPASS_PARAM_SHAPE@) is None,
    ensures
        ({
            let params = schema.params@;
            let outcome = schema_findings(schema, targets, validation, location)[2].outcome;
            let is_bypass_at = |i: int|
                0 <= i < params.len() && params[i].flags & CLAP_PARAM_IS_BYPASS != 0;
            &&& is_bypass_at(one) && !is_a_switch(params[one]) ==> outcome is Failed
            &&& is_bypass_at(one) && is_bypass_at(other) && one != other ==> outcome is Failed
            &&& (forall|i: int| #[trigger] is_bypass_at(i) ==> i == one && is_a_switch(params[i]))
                ==> outcome is Passed
        }),
{
    let params = schema.params@;
    let n = params.len() as int;
    lemma_bypasses(params, n, one, other);
    lemma_bypass_shapes(schema, location, n, one);
    let is_bypass_at = |i: int|
        0 <= i < params.len() && params[i].flags & CLAP_PARAM_IS_BYPASS != 0;
    assert forall|i: int|
        0 <= i < n && i != one && (forall|k: int| #[trigger]
            is_bypass_at(k) ==> k == one) implies (#[trigger] params[i]).flags
        & CLAP_PARAM_IS_BYPASS == 0 by {
        assert(!is_bypass_at(i));
    }
    if forall|i: int| #[trigger] is_bypass_at(i) ==> i == one && is_a_switch(params[i]) {
        assert forall|i: int| 0 <= i < n && is_bypass(#[trigger] params[i]) implies has_bypass_shape(
            params[i],
        ) by {
            assert(is_bypass_at(i));
        }
    }
}

proof fn lemma_bypass_shapes(schema: PluginSchema, location: Seq<char>, n: int, one: int)
    requires
        0 <= n <= schema.params@.len(),
    ensures
        ({
            let list = bypass_shape_violations(schema, location, n);
            let params = schema.params@;
            &&& list.len() >= extra_bypass_violations(schema, location).len()
            &&& 0 <= one < n && params[one].flags & CLAP_PARAM_IS_BYPASS != 0 && !is_a_switch(
                params[one],
            ) ==> list.len() > 0
            &&& (forall|i: int|
                0 <= i < n && is_bypass(#[trigger] params[i]) ==> has_bypass_shape(params[i]))
                ==> list == extra_bypass_violations(schema, location)
        }),
    decreases n,
{
    if n > 0 {
        lemma_bypass_shapes(schema, location, n - 1, one);
        lemma_switches(schema.params@[n - 1]);
    }
}

proof fn lemma_switches(param: ParameterSchema)
    ensures
        has_bypass_shape(param) == is_a_switch(param),
{
}

/// The id-matches-index rule for VST3: a plugin passes it exactly where the id of every parameter
/// is its position. Without VST3 among the targets it is skipped.
pub proof fn ids_that_are_no_positions_fail(
    schema: PluginSchema,
    targets: Seq<ValidateTarget>,
    validation: ValidationMetadata,
    location: Seq<char>,
)
    requires
        lookup(validation.disabled_rules@, RULE_LUNA_VST3_PARAM_ID_MATCH_INDEX@) is None,
        schema.params@.len() <= 0xffff_ffff,
    ensures
        ({
            let params = schema.params@;
            let outcome = schema_findings(schema, targets, validation, location)[1].outcome;
            &&& targets.contains(ValidateTarget::Vst3) ==> (outcome is Passed <==> forall|i: int|
                0 <= i < params.len() ==> (#[trigger] params[i]).id == i)
            &&& targets.contains(ValidateTarget::Vst3) ==> outcome is Passed || outcome is Failed
            &&& !targets.contains(ValidateTarget::Vst3) ==> outcome is Skipped
        }),
{
    lemma_ids(schema, location, schema.params@.len() as int);
}

proof fn lemma_ids(schema: PluginSchema, location: Seq<char>, n: int)
    requires
        0 <= n <= schema.params@.len() <= 0xffff_ffff,
    ensures
        id_mismatch_violations(schema, location, n).len() == 0 <==> forall|i: int|
            0 <= i < n ==> (#[trigger] schema.params@[i]).id == i,
    decreases n,
{
    if n > 0 {
        lemma_ids(schema, location, n - 1);
        assert((n - 1) as usize as u32 == n - 1);
        if id_mismatch_violations(schema, location, n).len() == 0 {
            assert forall|i: int| 0 <= i < n implies (#[trigger] schema.params@[i]).id == i by {
                if i < n - 1 {
                    assert(schema.params@[i].id == i);
                }
            }
        } else if schema.params@[n - 1].id == n - 1 {
            let i = choose|i: int| 0 <= i < n - 1 && (#[trigger] schema.params@[i]).id != i;
            assert(schema.params@[i].id != i);
        }
    }
}

/// A violation names the plugin that breaks the rule, the rule and the place where it was found.
pub proof fn violations_name_the_plugin(
    schema: PluginSchema,
    targets: Seq<ValidateTarget>,
    validation: ValidationMetadata,
    location: Seq<char>,
    rule: int,
    k: int,
)
    requires
        0 <= rule < 4,
    ensures
        ({
            let finding = schema_findings(schema, targets, validation, location)[rule];
            finding.outcome is Failed && 0 <= k < finding.outcome->Failed_0.len() ==> {
                let violation = finding.outcome->Failed_0[k];
                &&& violation.plugin_id == schema.plugin_id@
                &&& violation.plugin_name == schema.plugin_name@
                &&& violation.location == location
                &&& violation.rule_id == finding.rule_id
            }
        }),
{
    let n = schema.params@.len() as int;
    lemma_violations_name(schema, location, n, k);
}

proof fn lemma_violations_name(schema: PluginSchema, location: Seq<char>, n: int, k: int)
    requires
        0 <= n <= schema.params@.len(),
    ensures
        ({
            let list = id_mismatch_violations(schema, location, n);
            0 <= k < list.len() ==> list[k].plugin_id == schema.plugin_id@ && list[k].plugin_name
                == schema.plugin_name@ && list[k].location == location && list[k].rule_id
                == RULE_LUNA_VST3_PARAM_ID_MATCH_INDEX@
        }),
        ({
            let list = bypass_shape_violations(schema, location, n);
            0 <= k < list.len() ==> list[k].plugin_id == schema.plugin_id@ && list[k].plugin_name
                == schema.plugin_name@ && list[k].location == location && list[k].rule_id
                == RULE_BYPASS_PARAM_SHAPE@
        }),
    decreases n,
{
    if n > 0 {
        lemma_violations_name(schema, location, n - 1, k);
    }
}

// What the placeholder rule means for the metadata

/// Whether no text of the template is left in what the product itself is called.
pub open spec fn product_is_renamed(metadata: PluginMetadata) -> bool {
    &&& !occurs_in("wrac_gain_plugin"@, metadata.package_name@)
    &&& metadata.repository matches Some(repository) ==> !occurs_in(
        "github.com/novonotes/wrac-plugin-template"@,
        repository@,
    )
    &&& !occurs_in("Your Company"@, metadata.company_name@)
    &&& !occurs_in("YrCo"@, metadata.auv2_manufacturer_code@)
    &&& !occurs_in("YrCo"@, metadata.aax_manufacturer_id@)
    &&& !occurs_in("com.your-company"@, metadata.bundle_identifier@)
    &&& !occurs_in("example.com"@, metadata.homepage_url@)
    &&& !occurs_in("example.com"@, metadata.manual_url@)
    &&& !occurs_in("example.com"@, metadata.support_url@)
    &&& !occurs_in("Your Company"@, metadata.copyright@)
    &&& !occurs_in("WRAC Gain"@, metadata.bundle_name@)
}

/// Whether no text of the template is left in what a plugin is called.
pub open spec fn plugin_is_renamed(plugin: PluginProductMetadata) -> bool {
    &&& !occurs_in("com.your-company"@, plugin.plugin_id@)
    &&& !occurs_in("WRAC Gain"@, plugin.plugin_name@)
    &&& !occurs_in("WRAC Gain"@, plugin.standalone_name@)
    &&& !occurs_in("WtGn"@, plugin.auv2_subtype@)
    &&& !occurs_in("WtGn"@, plugin.aax_product_id@)
    &&& !occurs_in("822011ca-37ec-5cef-92d7-ec7e67207195"@, plugin.vst3_component_id@)
    &&& !occurs_in("ffff664c-b963-53e6-87cc-2a7ceb29674b"@, plugin.vst3_component_id@)
    &&& forall|i: int|
        0 <= i < plugin.aax_stem_configs@.len() ==> !occurs_in(
            "WtG"@,
            (#[trigger] plugin.aax_stem_configs@[i]).plugin_id@,
        )
}

/// The placeholder rule is kept exactly where the product and every plugin of it are renamed. In
/// a checkout of the template itself it is skipped, whatever the metadata hold.
pub proof fn a_renamed_product_passes(
    metadata: PluginMetadata,
    validation: ValidationMetadata,
    location: Seq<char>,
)
    requires
        lookup(validation.disabled_rules@, RULE_TEMPLATE_PLACEHOLDERS_RENAMED@) is None,
    ensures
        source_finding(metadata, validation, location, true).outcome is Skipped,
        ({
            let outcome = source_finding(metadata, validation, location, false).outcome;
            let renamed = product_is_renamed(metadata) && forall|i: int|
                0 <= i < metadata.plugins@.len() ==> plugin_is_renamed(
                    #[trigger] metadata.plugins@[i],
                );
            &&& renamed ==> outcome is Passed
            &&& !renamed ==> outcome is Failed
        }),
{
    let n = metadata.plugins@.len() as int;
    let fields = template_fields(metadata, n);
    leftovers_fail_the_rule(metadata, location, fields);
    lemma_template_fields(metadata, n);
}

/// Whether no field of a list holds the text of the template.
spec fn none_is_leftover(fields: Seq<Field>) -> bool {
    forall|i: int| 0 <= i < fields.len() ==> !is_leftover(#[trigger] fields[i])
}

proof fn lemma_leftovers_of_both(a: Seq<Field>, b: Seq<Field>)
    ensures
        none_is_leftover(a + b) <==> none_is_leftover(a) && none_is_leftover(b),
{
    let all = a + b;
    if none_is_leftover(all) {
        assert forall|i: int| 0 <= i < a.len() implies !is_leftover(#[trigger] a[i]) by {
            assert(all[i] == a[i]);
        }
        assert forall|i: int| 0 <= i < b.len() implies !is_leftover(#[trigger] b[i]) by {
            assert(all[a.len() + i] == b[i]);
        }
    }
}

proof fn lemma_template_fields(metadata: PluginMetadata, n: int)
    requires
        0 <= n <= metadata.plugins@.len(),
    ensures
        none_is_leftover(template_fields(metadata, n)) <==> product_is_renamed(metadata) && forall|
            i: int,
        |
            0 <= i < n ==> plugin_is_renamed(#[trigger] metadata.plugins@[i]),
    decreases n,
{
    if n <= 0 {
        lemma_product_fields(metadata);
    } else {
        lemma_template_fields(metadata, n - 1);
        let plugin = metadata.plugins@[n - 1];
        lemma_plugin_fields(plugin);
        lemma_leftovers_of_both(template_fields(metadata, n - 1), plugin_fields(plugin));
        if none_is_leftover(template_fields(metadata, n)) {
            assert forall|i: int| 0 <= i < n implies plugin_is_renamed(
                #[trigger] metadata.plugins@[i],
            ) by {
                if i < n - 1 {
                    assert(plugin_is_renamed(metadata.plugins@[i]));
                }
            }
        }
    }
}

proof fn lemma_product_fields(metadata: PluginMetadata)
    ensures
        none_is_leftover(product_fields(metadata)) <==> product_is_renamed(metadata),
{
    let fields = product_fields(metadata);
    reveal_strlit("github.com/novonotes/wrac-plugin-template");
    if metadata.repository is None {
        assert(!occurs_in(fields[1].placeholder, fields[1].value)) by {
            assert(fields[1].value.len() == 0 && fields[1].placeholder.len() > 0);
        }
    }
    if none_is_leftover(fields) {
        assert(!is_leftover(fields[0]) && !is_leftover(fields[1]) && !is_leftover(fields[2])
            && !is_leftover(fields[3]) && !is_leftover(fields[4]) && !is_leftover(fields[5])
            && !is_leftover(fields[6]) && !is_leftover(fields[7]) && !is_leftover(fields[8])
            && !is_leftover(fields[9]) && !is_leftover(fields[10]));
    }
}

proof fn lemma_plugin_fields(plugin: PluginProductMetadata)
    ensures
        none_is_leftover(plugin_fields(plugin)) <==> plugin_is_renamed(plugin),
{
    let first = identity_fields(plugin);
    let stems = stem_fields(plugin, plugin.aax_stem_configs@.len() as int);
    let last = component_fields(plugin);
    lemma_leftovers_of_both(first + stems, last);
    lemma_leftovers_of_both(first, stems);
    lemma_stem_fields(plugin, plugin.aax_stem_configs@.len() as int);
    if none_is_leftover(first) {
        assert(!is_leftover(first[0]) && !is_leftover(first[1]) && !is_leftover(first[2])
            && !is_leftover(first[3]) && !is_leftover(first[4]));
    }
    if none_is_leftover(last) {
        assert(!is_leftover(last[0]) && !is_leftover(last[1]));
    }
}

proof fn lemma_stem_fields(plugin: PluginProductMetadata, n: int)
    requires
        0 <= n <= plugin.aax_stem_configs@.len(),
    ensures
        none_is_leftover(stem_fields(plugin, n)) <==> forall|i: int|
            0 <= i < n ==> !occurs_in(
                "WtG"@,
                (#[trigger] plugin.aax_stem_configs@[i]).plugin_id@,
            ),
    decreases n,
{
    if n > 0 {
        lemma_stem_fields(plugin, n - 1);
        let before = stem_fields(plugin, n - 1);
        let fields = stem_fields(plugin, n);
        assert(fields =~= before + seq![fields.last()]);
        lemma_leftovers_of_both(before, seq![fields.last()]);
        if none_is_leftover(seq![fields.last()]) {
            assert(!is_leftover(seq![fields.last()][0]));
        }
        if none_is_leftover(fields) {
            assert forall|i: int| 0 <= i < n implies !occurs_in(
                "WtG"@,
                (#[trigger] plugin.aax_stem_configs@[i]).plugin_id@,
            ) by {
                if i < n - 1 {
                    assert(!occurs_in("WtG"@, plugin.aax_stem_configs@[i].plugin_id@));
                }
            }
        }
    }
}

/// A checkout is one of the template where one of its remotes is a repository of the template,
/// and a rule may be disabled where it is one of the five.
pub proof fn the_template_and_the_rules_are_known(remotes: Seq<char>, rule: Seq<char>)
    ensures
        names_template_repository(remotes) <==> occurs_in(
            "github.com/novonotes/wrac-plugin-template"@,
            remotes,
        ) || occurs_in("github.com/satoshi-szk/wrac-plugin-template"@, remotes) || occurs_in(
            "github.com/satoshi-assistant/wrac-plugin-template"@,
            remotes,
        ),
        is_known_rule(rule) <==> rule == "fender-studio-pro-generic-editor-single-knob"@ || rule
            == "luna-vst3-param-id-must-match-index"@ || rule == "bypass-param-shape"@ || rule
            == "plugin-requires-bypass"@ || rule == "template-placeholders-renamed"@,
{
}

/// Metadata are accepted exactly where every rule that they disable is one of the rules.
pub proof fn only_rules_that_exist_are_disabled(rules: Seq<(Seq<char>, Seq<char>)>, i: int)
    requires
        0 <= i <= rules.len(),
    ensures
        disabled_rules_error(rules, i) is None <==> forall|k: int|
            i <= k < rules.len() ==> is_known_rule((#[trigger] rules[k]).0),
    decreases rules.len() - i,
{
    if i < rules.len() {
        only_rules_that_exist_are_disabled(rules, i + 1);
        if disabled_rules_error(rules, i) is None {
            assert forall|k: int| i <= k < rules.len() implies is_known_rule(
                (#[trigger] rules[k]).0,
            ) by {
                if k > i {
                    assert(is_known_rule(rules[k].0));
                }
            }
        } else if is_known_rule(rules[i].0) {
            let k = choose|k: int|
                i + 1 <= k < rules.len() && !is_known_rule((#[trigger] rules[k]).0);
            assert(!is_known_rule(rules[k].0));
        }
    }
}

/// A product is checked as the laws above say: each rule is reported once, in its place, and a
/// result without a violation has passed.
pub proof fn products_are_checked_by_the_rules(
    schema: PluginSchema,
    targets: &[ValidateTarget],
    validation: ValidationMetadata,
    location: &str,
    results: Vec<CheckResult>,
    metadata: PluginMetadata,
    remotes: &str,
    source: Vec<CheckResult>,
    checkout: bool,
    elsewhere: bool,
    disabled: Result<(), String>,
)
    requires
        metadata.plugins@.len() > 0,
        call_ensures(evaluate_checks, (&schema, targets, &validation, location), results),
        call_ensures(
            evaluate_source_checks,
            (&metadata, &validation, location, Some(remotes)),
            source,
        ),
        call_ensures(is_template_development_checkout, (Some(remotes),), checkout),
        call_ensures(is_template_development_checkout, (None,), elsewhere),
        call_ensures(validate_disabled_rules, (&validation,), disabled),
    ensures
        findings_of(results@) == schema_findings(schema, targets@, validation, location@),
        findings_of(results@).len() == 4,
        findings_of(source@) == seq![source_finding(metadata, validation, location@, checkout)],
        checkout == names_template_repository(remotes@),
        !elsewhere,
        disabled is Ok <==> forall|k: int|
            0 <= k < validation.disabled_rules@.len() ==> is_known_rule(
                (#[trigger] validation.disabled_rules@[k]).0,
            ),
{
    every_rule_is_reported(schema, targets@, validation, location@);
    only_rules_that_exist_are_disabled(validation.disabled_rules@, 0);
}

/// A check fails exactly where it has found a violation.
pub proof fn violations_fail_a_check(violations: Vec<RuleViolation>, status: CheckStatus)
    requires
        call_ensures(CheckStatus::from_violations, (violations,), status),
    ensures
        status@ is Passed <==> violations@.len() == 0,
        status@ is Failed <==> violations@.len() > 0,
        status@ is Failed ==> status@->Failed_0 == violations_of(violations@),
{
}

/// What is said of a parameter names it and shows the values that the rule is about, each under
/// its own name.
pub proof fn messages_show_what_they_are_about(index: nat, param: ParameterSchema)
    ensures
        (" id="@ + decimal(param.id as nat) + " name=\""@ + param.name@ + "\""@).is_suffix_of(
            id_mismatch_message(index, param),
        ),
        ("LUNA 2.0.3.4381 VST3 automation writes fail when ParamID differs from parameter index. index="@
            + decimal(index)).is_prefix_of(id_mismatch_message(index, param)),
        ("Bypass parameter must be a stepped enum with range 0..1 and a boolean default. id="@
            + decimal(param.id as nat) + " name=\""@ + param.name@
            + "\" stepped="@).is_prefix_of(bypass_shape_message(param)),
        (" min="@ + param.min_value.text@ + " max="@ + param.max_value.text@ + " default="@
            + param.default_value.text@).is_suffix_of(bypass_shape_message(param)),
        ({
            let stepped = has_flag(param.flags, CLAP_PARAM_IS_STEPPED);
            let listed = has_flag(param.flags, CLAP_PARAM_IS_ENUM);
            let shown = "\" stepped="@ + (if stepped {
                "true"@
            } else {
                "false"@
            }) + " enum="@ + (if listed {
                "true"@
            } else {
                "false"@
            }) + " min="@;
            occurs_in(shown, bypass_shape_message(param))
        }),
{
    let mismatch = id_mismatch_message(index, param);
    let shape = bypass_shape_message(param);
    let stepped = bool_text(has_flag(param.flags, CLAP_PARAM_IS_STEPPED));
    let listed = bool_text(has_flag(param.flags, CLAP_PARAM_IS_ENUM));
    let opening = "LUNA 2.0.3.4381 VST3 automation writes fail when ParamID differs from parameter index. index="@
        + decimal(index);
    let about = " id="@ + decimal(param.id as nat) + " name=\""@ + param.name@ + "\""@;
    assert(mismatch =~= opening + about);
    assert(mismatch.subrange(mismatch.len() - about.len(), mismatch.len() as int) =~= about);
    let head = "Bypass parameter must be a stepped enum with range 0..1 and a boolean default. id="@
        + decimal(param.id as nat) + " name=\""@ + param.name@;
    let mark = "\" stepped="@;
    let shown = mark + stepped + " enum="@ + listed + " min="@;
    let values = param.min_value.text@ + " max="@ + param.max_value.text@ + " default="@
        + param.default_value.text@;
    let tail = " min="@ + param.min_value.text@ + " max="@ + param.max_value.text@
        + " default="@ + param.default_value.text@;
    assert(shape =~= head + shown + values);
    assert(shape =~= (head + mark) + (stepped + " enum="@ + listed + tail));
    assert(tail =~= " min="@ + values);
    assert(shape =~= (head + mark + stepped + " enum="@ + listed) + tail);
    assert(shape.subrange(shape.len() - tail.len(), shape.len() as int) =~= tail);
    assert(shape.subrange(head.len() as int, (head.len() + shown.len()) as int) =~= shown);
    assert(stands_at(shape, shown, head.len() as int));
}

/// What is said of a leftover names its field, shows the placeholder and the value around it.
pub proof fn leftovers_are_shown(metadata: PluginMetadata, location: Seq<char>, field: Field)
    ensures
        ({
            let violation = leftover_violation(metadata, location, field);
            &&& field.name.is_prefix_of(violation.message)
            &&& violation.message.skip(field.name.len() as int)
                == " still contains template placeholder \""@ + field.placeholder
                + "\". value=\""@ + field.value + "\""@
            &&& violation.plugin_id == metadata.plugins@[0].plugin_id@
            &&& violation.plugin_name == metadata.bundle_name@
            &&& violation.location == location
        }),
{
    let message = leftover_violation(metadata, location, field).message;
    let rest = " still contains template placeholder \""@ + field.placeholder + "\". value=\""@
        + field.value + "\""@;
    assert(message =~= field.name + rest);
    assert(message.skip(field.name.len() as int) =~= rest);
}

/// A violation tells how to mend it, by its rule, and one that counts parameters tells how many
/// there are.
pub proof fn violations_tell_how_to_mend_them(
    schema: PluginSchema,
    location: Seq<char>,
    n: int,
    k: int,
)
    requires
        0 <= n <= schema.params@.len(),
    ensures
        ({
            let list = single_knob_violations(schema, location);
            0 <= k < list.len() ==> {
                &&& list[k].fix
                    == "Expose zero or at least two visible non-bypass parameters, or disable this rule with a documented reason."@
                &&& list[k].message
                    == "Fender Studio Pro generic editors fail to render knobs when exactly one visible non-bypass parameter is exposed. visible_non_bypass_parameter_count="@
                    + decimal(1)
            }
        }),
        ({
            let list = missing_bypass_violations(schema, location);
            0 <= k < list.len() ==> {
                &&& list[k].fix
                    == "Add one bypass parameter, or disable this rule with a documented reason."@
                &&& list[k].message == "Production plugins should expose a host bypass parameter."@
            }
        }),
        ({
            let list = extra_bypass_violations(schema, location);
            0 <= k < list.len() ==> {
                &&& list[k].fix == "Expose a single host bypass parameter."@
                &&& list[k].message
                    == "Only one bypass parameter may be exposed. bypass_parameter_count="@
                    + decimal(bypass_count(schema.params@, schema.params@.len() as int))
            }
        }),
        ({
            let list = id_mismatch_violations(schema, location, n);
            0 <= k < list.len() ==> list[k].fix
                == "Keep public VST3 parameter IDs equal to their parameter-list indices."@
        }),
        ({
            let list = bypass_shape_violations(schema, location, n);
            0 <= k < list.len() ==> list[k].fix == "Expose a single host bypass parameter."@
                || list[k].fix
                == "Set bypass flags to stepped + enum + bypass, min=0, max=1, and default=0 or 1."@
        }),
    decreases n,
{
    if n > 0 {
        violations_tell_how_to_mend_them(schema, location, n - 1, k);
    }
}

/// A number counts as 0 or 1 where it lies nearer to it than the distance from 1 to the next
/// number above, and never as both.
pub proof fn numbers_are_zero_or_one_up_to_rounding(value: ParameterNumber, zero: bool, one: bool)
    requires
        call_ensures(ParameterNumber::is_zero, (&value,), zero),
        call_ensures(ParameterNumber::is_one, (&value,), one),
    ensures
        zero <==> value.bits < 0x3cb0_0000_0000_0000 || 0x8000_0000_0000_0000 <= value.bits
            < 0xbcb0_0000_0000_0000,
        one <==> 0x3fef_ffff_ffff_ffff <= value.bits <= 0x3ff0_0000_0000_0000,
        !(zero && one),
{
}

/// The leftovers of the template are those of its fields that still hold their placeholder.
pub proof fn leftovers_are_found_among_the_fields(
    metadata: PluginMetadata,
    location: &str,
    violations: Vec<RuleViolation>,
)
    requires
        metadata.plugins@.len() > 0,
        call_ensures(template_placeholder_violations, (&metadata, location), violations),
    ensures
        violations_of(violations@) == leftover_violations(
            metadata,
            location@,
            template_fields(metadata, metadata.plugins@.len() as int),
        ),
{
}

} // verus!
