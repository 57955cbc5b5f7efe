//! The AAX validator: which of its tests run, how, and what their results mean.

use vstd::prelude::*;

use crate::text::{
    chars_of, decimal, decimal_text, ends_with, error_of, is_alphanumeric, is_ascii_alphanumeric,
    join, join2, join3, joined, number_value, occurs_in, parse_number, replace, replaced, same_text,
    stands_at, starts_with, string_of, texts,
    the_first_occurrence_is_replaced,
};
use crate::wrac_xtask::targets::Platform;

verus! {

// The tests

/// The tests that an AAX bundle has to pass.
pub open spec fn required_tests() -> Seq<Seq<char>> {
    seq![
        "info.productids"@,
        "info.support.audiosuite"@,
        "info.support.general"@,
        "info.support.s6_feature"@,
        "test.data_model"@,
        "test.describe_validation"@,
        "test.load_unload"@,
        "test.page_table.automation_list"@,
        "test.parameter_traversal.linear"@,
        "test.parameter_traversal.random"@,
        "test.parameter_traversal.random.fast"@,
        "test.parameters"@,
    ]
}

/// What the names of a list are.
pub open spec fn names_of(list: Seq<&'static str>) -> Seq<Seq<char>> {
    Seq::new(list.len(), |i: int| list[i]@)
}

/// The tests that an AAX bundle has to pass.
pub fn aax_validator_required_tests() -> (tests: Vec<&'static str>)
    ensures
        names_of(tests@) == required_tests(),
{
    let mut tests: Vec<&'static str> = Vec::new();
    tests.push("info.productids");
    tests.push("info.support.audiosuite");
    tests.push("info.support.general");
    tests.push("info.support.s6_feature");
    tests.push("test.data_model");
    tests.push("test.describe_validation");
    tests.push("test.load_unload");
    tests.push("test.page_table.automation_list");
    tests.push("test.parameter_traversal.linear");
    tests.push("test.parameter_traversal.random");
    tests.push("test.parameter_traversal.random.fast");
    tests.push("test.parameters");
    assert(names_of(tests@) =~= required_tests());
    tests
}

/// A number with at least two digits.
pub open spec fn two_digits(n: nat) -> Seq<char> {
    if n < 10 {
        "0"@ + decimal(n)
    } else {
        decimal(n)
    }
}

/// `s` with every `from` turned into `to`.
pub open spec fn with_char(s: Seq<char>, from: char, to: char) -> Seq<char> {
    Seq::new(
        s.len(),
        |i: int|
            if s[i] == from {
                to
            } else {
                s[i]
            },
    )
}

fn replace_char(s: &str, from: char, to: char) -> (result: String)
    ensures
        result@ == with_char(s@, from, to),
{
    let chars = chars_of(s);
    let ghost expected = with_char(s@, from, to);
    let mut result: String = String::new();
    let mut i: usize = 0;
    while i < chars.len()
        invariant
            i <= chars@.len(),
            chars@ == s@,
            expected == with_char(s@, from, to),
            result@ == expected.take(i as int),
        decreases chars@.len() - i,
    {
        if chars[i] == from {
            result.push(to);
        } else {
            result.push(chars[i]);
        }
        assert(expected.take(i + 1) =~= expected.take(i as int).push(expected[i as int]));
        i += 1;
    }
    assert(expected.take(i as int) =~= expected);
    result
}

/// The directory of the test at `index`: its number and its name without dots.
pub open spec fn test_directory(index: nat, test_id: Seq<char>) -> Seq<char> {
    two_digits(index + 1) + "-"@ + with_char(test_id, '.', '_')
}

/// The directory of the test at `index`.
pub fn aax_validator_test_directory(index: usize, test_id: &str) -> (name: String)
    requires
        index < usize::MAX,
    ensures
        name@ == test_directory(index as nat, test_id@),
{
    let number: u64 = index as u64 + 1;
    let digits = if number < 10 {
        join2("0", decimal_text(number).as_str())
    } else {
        decimal_text(number)
    };
    join3(digits.as_str(), "-", replace_char(test_id, '.', '_').as_str())
}

/// The file that holds the result of the test at `index`.
pub fn aax_validator_result_path(index: usize, test_id: &str) -> (name: String)
    requires
        index < usize::MAX,
    ensures
        name@ == test_directory(index as nat, test_id@) + ".json"@,
{
    join2(aax_validator_test_directory(index, test_id).as_str(), ".json")
}

/// A path as the validator takes it: with backslashes on Windows.
pub open spec fn cli_path(platform: Platform, path: Seq<char>) -> Seq<char> {
    if platform == Platform::Windows {
        with_char(path, '/', '\\')
    } else {
        path
    }
}

/// A path as the validator takes it.
pub fn aax_validator_cli_path(platform: Platform, path: &str) -> (result: String)
    ensures
        result@ == cli_path(platform, path@),
{
    if platform == Platform::Windows {
        replace_char(path, '/', '\\')
    } else {
        path.to_owned()
    }
}

/// What one run of the validator works on. Paths are as the system shows them.
#[derive(Debug)]
pub struct DttRun {
    pub platform: Platform,
    pub test_id: String,
    pub timeout_factor: u32,
    pub log_dir: String,
    pub search_dir: String,
    pub test_dir: String,
    pub bundle: String,
}

/// The arguments of one run of the validator. On Windows, where the search for bundles can come
/// back empty, the bundle is named as well.
pub open spec fn dtt_args(run: DttRun) -> Seq<Seq<char>> {
    seq![
        "--script"@,
        "ValidatorRunAllTests"@,
        "--no_pref_delete"@,
        "--no_move_options"@,
        "--disable_digitrace"@,
        "--verbose"@,
        "--timeout_factor"@,
        decimal(run.timeout_factor as nat),
        "--logdir"@,
        cli_path(run.platform, run.log_dir@),
        "--arg"@,
        "pi_path="@ + cli_path(run.platform, run.search_dir@),
        "--arg"@,
        "out_path="@ + cli_path(run.platform, run.test_dir@),
        "--arg"@,
        "result_format=json"@,
        "--arg"@,
        "test_id="@ + run.test_id@,
    ] + (if run.platform == Platform::Windows {
        seq!["--arg"@, "aaxplugin_path="@ + cli_path(run.platform, run.bundle@)]
    } else {
        Seq::empty()
    })
}

/// The arguments of one run of the validator.
pub fn aax_validator_dtt_args(run: &DttRun) -> (args: Vec<String>)
    ensures
        texts(args@) == dtt_args(*run),
{
    let mut args: Vec<String> = Vec::new();
    args.push("--script".to_owned());
    args.push("ValidatorRunAllTests".to_owned());
    args.push("--no_pref_delete".to_owned());
    args.push("--no_move_options".to_owned());
    args.push("--disable_digitrace".to_owned());
    args.push("--verbose".to_owned());
    args.push("--timeout_factor".to_owned());
    args.push(decimal_text(run.timeout_factor as u64));
    args.push("--logdir".to_owned());
    args.push(aax_validator_cli_path(run.platform, run.log_dir.as_str()));
    args.push("--arg".to_owned());
    let search_dir = aax_validator_cli_path(run.platform, run.search_dir.as_str());
    args.push(join2("pi_path=", search_dir.as_str()));
    args.push("--arg".to_owned());
    let test_dir = aax_validator_cli_path(run.platform, run.test_dir.as_str());
    args.push(join2("out_path=", test_dir.as_str()));
    args.push("--arg".to_owned());
    args.push("result_format=json".to_owned());
    args.push("--arg".to_owned());
    args.push(join2("test_id=", run.test_id.as_str()));
    if run.platform == Platform::Windows {
        args.push("--arg".to_owned());
        let bundle = aax_validator_cli_path(run.platform, run.bundle.as_str());
        args.push(join2("aaxplugin_path=", bundle.as_str()));
    }
    assert(texts(args@) =~= dtt_args(*run));
    args
}

// The results

/// Whether a file is a result of the test.
pub open spec fn is_result_of(name: Seq<char>, test_id: Seq<char>) -> bool {
    (test_id + "__"@).is_prefix_of(name) && ".json"@.is_suffix_of(name)
}

/// How many of the first `n` files are results of the test.
pub open spec fn result_count(names: Seq<Seq<char>>, test_id: Seq<char>, n: int) -> nat
    decreases n,
{
    if n <= 0 {
        0
    } else {
        result_count(names, test_id, n - 1) + if is_result_of(names[n - 1], test_id) {
            1nat
        } else {
            0nat
        }
    }
}

/// The one result of a test among the files of its result directory. It is an error where there
/// is none, and where there is more than one.
pub fn find_aax_validator_dtt_result(
    names: &Vec<String>,
    test_id: &str,
    result_dir: &str,
) -> (result: Result<usize, String>)
    ensures
        ({
            let all = texts(names@);
            let count = result_count(all, test_id@, all.len() as int);
            match result {
                Ok(i) => {
                    &&& count == 1
                    &&& i < all.len()
                    &&& is_result_of(all[i as int], test_id@)
                },
                Err(message) => if count == 0 {
                    message@ == "AAX validator/DTT did not write a JSON result for "@ + test_id@
                        + " under "@ + result_dir@
                } else {
                    &&& count > 1
                    &&& message@ == "AAX validator/DTT wrote multiple JSON results for "@
                        + test_id@ + " under "@ + result_dir@
                },
            }
        }),
{
    let prefix = join2(test_id, "__");
    let ghost all = texts(names@);
    let mut count: usize = 0;
    let mut found: usize = 0;
    let mut i: usize = 0;
    while i < names.len()
        invariant
            i <= names@.len(),
            all == texts(names@),
            prefix@ == test_id@ + "__"@,
            count <= i,
            count == result_count(all, test_id@, i as int),
            count > 0 ==> found < names@.len() && is_result_of(all[found as int], test_id@),
        decreases names@.len() - i,
    {
        if starts_with(names[i].as_str(), prefix.as_str()) && ends_with(
            names[i].as_str(),
            ".json",
        ) {
            count += 1;
            found = i;
        }
        i += 1;
    }
    if count == 1 {
        Ok(found)
    } else if count == 0 {
        let mut message = join3(
            "AAX validator/DTT did not write a JSON result for ",
            test_id,
            " under ",
        );
        message.append(result_dir);
        Err(message)
    } else {
        let mut message = join3(
            "AAX validator/DTT wrote multiple JSON results for ",
            test_id,
            " under ",
        );
        message.append(result_dir);
        Err(message)
    }
}

/// The text that a JSON document holds under a key: the document's error where it is none, and
/// nothing where it is no object, has no such key or holds no text there.
pub uninterp spec fn json_text(content: Seq<char>, key: Seq<char>) -> Result<
    Option<Seq<char>>,
    Seq<char>,
>;

/// Reads `content` by `serde_json::from_str` and looks `key` up by `Value::get` and
/// `Value::as_str`. The claim is that the outcome depends on the two texts alone.
#[verifier::external_body]
fn read_json_text(content: &str, key: &str) -> (result: Result<Option<String>, String>)
    ensures
        match result {
            Ok(Some(text)) => json_text(content@, key@) == Ok::<Option<Seq<char>>, Seq<char>>(
                Some(text@),
            ),
            Ok(None) => json_text(content@, key@) == Ok::<Option<Seq<char>>, Seq<char>>(None),
            Err(error) => json_text(content@, key@) == Err::<Option<Seq<char>>, Seq<char>>(
                error@,
            ),
        },
{
    let json: serde_json::Value =
        serde_json::from_str(content).map_err(|error| error.to_string())?;
    Ok(json.get(key).and_then(serde_json::Value::as_str).map(str::to_string))
}

/// The status that a result file holds, or why it holds none.
pub open spec fn status_of(read: Result<Option<Seq<char>>, Seq<char>>, path: Seq<char>) -> Result<
    Seq<char>,
    Seq<char>,
> {
    match read {
        Ok(Some(status)) => Ok(status),
        Ok(None) => Err("AAX validator result did not include result_status: "@ + path),
        Err(error) => Err("failed to parse AAX validator result "@ + path + ": "@ + error),
    }
}

/// The status that was read out of a result file, or why it holds none.
pub fn aax_validator_status(read: Result<Option<String>, String>, path: &str) -> (result: Result<
    String,
    String,
>)
    ensures
        ({
            let expected = status_of(
                match read {
                    Ok(Some(text)) => Ok(Some(text@)),
                    Ok(None) => Ok(None),
                    Err(error) => Err(error@),
                },
                path@,
            );
            match result {
                Ok(status) => expected == Ok::<Seq<char>, Seq<char>>(status@),
                Err(message) => expected == Err::<Seq<char>, Seq<char>>(message@),
            }
        }),
{
    match read {
        Ok(Some(status)) => Ok(status),
        Ok(None) => Err(
            join2("AAX validator result did not include result_status: ", path),
        ),
        Err(error) => {
            let mut message = join3("failed to parse AAX validator result ", path, ": ");
            message.append(error.as_str());
            Err(message)
        },
    }
}

/// The status that a result file holds.
pub fn aax_validator_result_status(content: &str, path: &str) -> (result: Result<String, String>)
    ensures
        ({
            let expected = status_of(json_text(content@, "result_status"@), path@);
            match result {
                Ok(status) => expected == Ok::<Seq<char>, Seq<char>>(status@),
                Err(message) => expected == Err::<Seq<char>, Seq<char>>(message@),
            }
        }),
{
    aax_validator_status(read_json_text(content, "result_status"), path)
}

/// The tests among the first `n` that did not pass, with their status.
pub open spec fn failed_tests(tests: Seq<Seq<char>>, statuses: Seq<Seq<char>>, n: int) -> Seq<
    Seq<char>,
>
    decreases n,
{
    if n <= 0 {
        Seq::empty()
    } else if statuses[n - 1] == "E_COMPLETED_PASS"@ {
        failed_tests(tests, statuses, n - 1)
    } else {
        failed_tests(tests, statuses, n - 1).push(
            tests[n - 1] + " ("@ + statuses[n - 1] + ")"@,
        )
    }
}

/// Accepts the statuses of the required tests where every one of them passed.
pub fn assert_aax_validator_results(statuses: &Vec<String>) -> (result: Result<(), String>)
    requires
        statuses@.len() == required_tests().len(),
    ensures
        ({
            let failed = failed_tests(
                required_tests(),
                texts(statuses@),
                required_tests().len() as int,
            );
            error_of(result) == if failed.len() == 0 {
                None
            } else {
                Some(
                    "AAX validator reported failed validation results: "@ + joined(failed, ", "@),
                )
            }
        }),
{
    let tests = aax_validator_required_tests();
    let ghost all = texts(statuses@);
    let mut failed: Vec<String> = Vec::new();
    let mut i: usize = 0;
    assert(texts(failed@) =~= Seq::<Seq<char>>::empty());
    while i < tests.len()
        invariant
            i <= tests@.len() == statuses@.len(),
            all == texts(statuses@),
            names_of(tests@) == required_tests(),
            texts(failed@) == failed_tests(required_tests(), all, i as int),
        decreases tests@.len() - i,
    {
        assert(names_of(tests@)[i as int] == tests@[i as int]@);
        if !same_text(statuses[i].as_str(), "E_COMPLETED_PASS") {
            let ghost before = failed@;
            let mut entry = join3(tests[i], " (", statuses[i].as_str());
            entry.append(")");
            failed.push(entry);
            assert(texts(failed@) =~= texts(before).push(failed@.last()@));
        }
        i += 1;
    }
    assert(names_of(tests@).len() == tests@.len());
    if failed.is_empty() {
        Ok(())
    } else {
        Err(
            join2(
                "AAX validator reported failed validation results: ",
                join(&failed, ", ").as_str(),
            ),
        )
    }
}

/// The results are accepted exactly where every required test has passed.
pub proof fn results_pass_where_every_test_passed(statuses: Seq<Seq<char>>, n: int)
    requires
        0 <= n <= statuses.len(),
        n <= required_tests().len(),
    ensures
        failed_tests(required_tests(), statuses, n).len() == 0 <==> forall|i: int|
            0 <= i < n ==> #[trigger] statuses[i] == "E_COMPLETED_PASS"@,
    decreases n,
{
    if n > 0 {
        results_pass_where_every_test_passed(statuses, n - 1);
    }
}

// Waiting

pub const AAX_VALIDATOR_TIMEOUT_SECS: u64 = 900;

pub const AAX_VALIDATOR_DTT_TIMEOUT_FACTOR: u32 = 10;

/// What the environment says of a setting.
#[derive(Debug)]
pub enum EnvironmentValue {
    Unset,
    Text { value: String },
    Unreadable { error: String },
}

/// A number that the environment sets, up to `max`.
pub open spec fn setting(key: Seq<char>, value: EnvironmentValue, default: nat, max: nat) -> Result<
    nat,
    Seq<char>,
> {
    match value {
        EnvironmentValue::Unset => Ok(default),
        EnvironmentValue::Text { value } => match number_value(value@, max) {
            Ok(number) => Ok(number),
            Err(error) => Err(
                "failed to parse "@ + key + "="@ + value@ + ": "@ + error.text(),
            ),
        },
        EnvironmentValue::Unreadable { error } => Err(
            "failed to read "@ + key + ": "@ + error@,
        ),
    }
}

fn read_setting(key: &str, value: &EnvironmentValue, default: u64, max: u64) -> (result: Result<
    u64,
    String,
>)
    ensures
        match result {
            Ok(number) => setting(key@, *value, default as nat, max as nat) == Ok::<
                nat,
                Seq<char>,
            >(number as nat),
            Err(message) => setting(key@, *value, default as nat, max as nat) == Err::<
                nat,
                Seq<char>,
            >(message@),
        },
{
    match value {
        EnvironmentValue::Unset => Ok(default),
        EnvironmentValue::Text { value } => match parse_number(value.as_str(), max) {
            Ok(number) => Ok(number),
            Err(error) => {
                let mut message = join3("failed to parse ", key, "=");
                message.append(value.as_str());
                message.append(": ");
                message.append(error.message());
                Err(message)
            },
        },
        EnvironmentValue::Unreadable { error } => {
            let mut message = join3("failed to read ", key, ": ");
            message.append(error.as_str());
            Err(message)
        },
    }
}

/// How long a run of the validator may take, in seconds.
pub fn aax_validator_timeout(value: &EnvironmentValue) -> (result: Result<u64, String>)
    ensures
        ({
            let expected = setting(
                "AAX_VALIDATOR_TIMEOUT_SECS"@,
                *value,
                AAX_VALIDATOR_TIMEOUT_SECS as nat,
                u64::MAX as nat,
            );
            match result {
                Ok(seconds) => expected == Ok::<nat, Seq<char>>(seconds as nat),
                Err(message) => expected == Err::<nat, Seq<char>>(message@),
            }
        }),
{
    read_setting("AAX_VALIDATOR_TIMEOUT_SECS", value, AAX_VALIDATOR_TIMEOUT_SECS, u64::MAX)
}

/// By how much the validator stretches its own timeouts. Zero is refused.
pub fn aax_validator_dtt_timeout_factor(value: &EnvironmentValue) -> (result: Result<u32, String>)
    ensures
        ({
            let expected = setting(
                "AAX_VALIDATOR_DTT_TIMEOUT_FACTOR"@,
                *value,
                AAX_VALIDATOR_DTT_TIMEOUT_FACTOR as nat,
                u32::MAX as nat,
            );
            match result {
                Ok(factor) => expected == Ok::<nat, Seq<char>>(factor as nat) && factor > 0,
                Err(message) => if expected == Ok::<nat, Seq<char>>(0) {
                    message@ == "AAX_VALIDATOR_DTT_TIMEOUT_FACTOR must be greater than 0"@
                } else {
                    expected == Err::<nat, Seq<char>>(message@)
                },
            }
        }),
{
    match read_setting(
        "AAX_VALIDATOR_DTT_TIMEOUT_FACTOR",
        value,
        AAX_VALIDATOR_DTT_TIMEOUT_FACTOR as u64,
        u32::MAX as u64,
    ) {
        Ok(factor) => {
            if factor == 0 {
                return Err(
                    "AAX_VALIDATOR_DTT_TIMEOUT_FACTOR must be greater than 0".to_owned(),
                );
            }
            proof {
                lemma_setting_is_bounded(
                    "AAX_VALIDATOR_DTT_TIMEOUT_FACTOR"@,
                    *value,
                    AAX_VALIDATOR_DTT_TIMEOUT_FACTOR as nat,
                    u32::MAX as nat,
                );
            }
            Ok(factor as u32)
        },
        Err(message) => Err(message),
    }
}

proof fn lemma_digits_are_bounded(s: Seq<char>, max: nat)
    ensures
        crate::text::digits_value(s, max) matches Ok(value) ==> value <= max,
    decreases s.len(),
{
    if s.len() > 0 {
        lemma_digits_are_bounded(s.drop_last(), max);
    }
}

proof fn lemma_setting_is_bounded(key: Seq<char>, value: EnvironmentValue, default: nat, max: nat)
    requires
        default <= max,
    ensures
        setting(key, value, default, max) matches Ok(number) ==> number <= max,
{
    if let EnvironmentValue::Text { value } = value {
        lemma_digits_are_bounded(value@, max);
        lemma_digits_are_bounded(value@.skip(1), max);
    }
}

/// What to do while a run of the validator lasts.
#[derive(Debug)]
pub enum WaitStep {
    /// The run has ended.
    Ended,
    /// The run has to be stopped.
    TimedOut { message: String },
    /// The run is looked at again a second later.
    Sleep,
}

/// What to do while a run of the validator lasts, by whether it has ended and for how many
/// nanoseconds it has run.
pub fn wait_for_aax_validator_process(ended: bool, elapsed: u128, timeout_secs: u64) -> (step:
    WaitStep)
    ensures
        match step {
            WaitStep::Ended => ended,
            WaitStep::TimedOut { message } => {
                &&& !ended
                &&& elapsed >= timeout_secs * 1_000_000_000
                &&& message@ == "AAX validator process timed out after "@ + decimal(
                    timeout_secs as nat,
                ) + " seconds"@
            },
            WaitStep::Sleep => !ended && elapsed < timeout_secs * 1_000_000_000,
        },
{
    if ended {
        WaitStep::Ended
    } else if elapsed >= timeout_secs as u128 * 1_000_000_000u128 {
        WaitStep::TimedOut {
            message: join3(
                "AAX validator process timed out after ",
                decimal_text(timeout_secs).as_str(),
                " seconds",
            ),
        }
    } else {
        WaitStep::Sleep
    }
}

// The staged bundle

/// The characters that a staged bundle keeps in its name.
pub open spec fn is_plain_char(c: char) -> bool {
    is_alphanumeric(c) || c == '_' || c == '-'
}

/// The plain characters of `s`.
pub open spec fn plain_chars(s: Seq<char>) -> Seq<char>
    decreases s.len(),
{
    if s.len() == 0 {
        Seq::empty()
    } else if is_plain_char(s.last()) {
        plain_chars(s.drop_last()).push(s.last())
    } else {
        plain_chars(s.drop_last())
    }
}

/// The name of a bundle without its extension.
pub open spec fn bundle_stem(name: Seq<char>) -> Seq<char> {
    if ".aaxplugin"@.is_suffix_of(name) {
        name.take(name.len() - ".aaxplugin"@.len())
    } else {
        name
    }
}

/// The name of a staged bundle on Windows: its plain characters, or `Plugin` where it has none.
pub open spec fn staged_name(name: Seq<char>) -> Seq<char> {
    let stem = plain_chars(bundle_stem(name));
    (if stem.len() == 0 {
        "Plugin"@
    } else {
        stem
    }) + ".aaxplugin"@
}

/// The name of a staged bundle on Windows, where the validator cannot take spaces.
pub fn windows_aax_validator_bundle_name(bundle_name: &str) -> (name: String)
    ensures
        name@ == staged_name(bundle_name@),
{
    let chars = chars_of(bundle_name);
    let suffix = chars_of(".aaxplugin");
    let end: usize = if ends_with(bundle_name, ".aaxplugin") {
        chars.len() - suffix.len()
    } else {
        chars.len()
    };
    let ghost whole = bundle_stem(bundle_name@);
    assert(whole =~= chars@.take(end as int));
    let mut stem: Vec<char> = Vec::new();
    let mut i: usize = 0;
    while i < end
        invariant
            i <= end <= chars@.len(),
            stem@ == plain_chars(chars@.take(i as int)),
        decreases end - i,
    {
        assert(chars@.take(i + 1).drop_last() =~= chars@.take(i as int));
        if is_ascii_alphanumeric(chars[i]) || chars[i] == '_' || chars[i] == '-' {
            stem.push(chars[i]);
        }
        i += 1;
    }
    if stem.len() == 0 {
        join2("Plugin", ".aaxplugin")
    } else {
        join2(string_of(&stem).as_str(), ".aaxplugin")
    }
}

/// The name of the bundle that the validator is given.
pub fn staged_aax_bundle_name(platform: Platform, bundle_name: &str) -> (name: String)
    ensures
        name@ == if platform == Platform::Windows {
            staged_name(bundle_name@)
        } else {
            bundle_name@
        },
{
    if platform == Platform::Windows {
        windows_aax_validator_bundle_name(bundle_name)
    } else {
        bundle_name.to_owned()
    }
}

// The logs

/// How many bytes of a log are shown.
pub const MAX_SHOWN_LOG_BYTES: usize = 65536;

/// Where a log is cut: at the last place within the shown bytes where a character begins.
pub fn log_cut(content: &str) -> (cut: Option<usize>)
    ensures
        match cut {
            None => vstd::utf8::encode_utf8(content@).len() as usize <= MAX_SHOWN_LOG_BYTES,
            Some(at) => {
                &&& vstd::utf8::encode_utf8(content@).len() as usize > MAX_SHOWN_LOG_BYTES
                &&& at <= MAX_SHOWN_LOG_BYTES
                &&& vstd::utf8::is_char_boundary(vstd::utf8::encode_utf8(content@), at as int)
                &&& forall|i: int|
                    at < i <= MAX_SHOWN_LOG_BYTES ==> !#[trigger] vstd::utf8::is_char_boundary(
                        vstd::utf8::encode_utf8(content@),
                        i,
                    )
            },
        },
{
    if content.len() <= MAX_SHOWN_LOG_BYTES {
        return None;
    }
    let mut at: usize = MAX_SHOWN_LOG_BYTES;
    proof {
        vstd::utf8::encode_utf8_valid_utf8(content@);
    }
    while !content.is_char_boundary(at)
        invariant
            at <= MAX_SHOWN_LOG_BYTES,
            vstd::utf8::valid_utf8(vstd::utf8::encode_utf8(content@)),
            forall|i: int|
                at < i <= MAX_SHOWN_LOG_BYTES ==> !#[trigger] vstd::utf8::is_char_boundary(
                    vstd::utf8::encode_utf8(content@),
                    i,
                ),
        decreases at,
    {
        assert(at != 0);
        at -= 1;
    }
    Some(at)
}

// Making the extracted validator run unattended

pub const LAUNCHER_FIRST: &'static str = "eval \"$ruby_path $(realpath $runsuite_path) $@\" ";

pub const LAUNCHER_FIRST_PATCHED: &'static str = "\"$ruby_path\" \"$(realpath \"$runsuite_path\")\" \"$@\" ";

pub const LAUNCHER_SECOND: &'static str = "eval \"$ruby_path $(realpath $runsuite_path) $@\"";

pub const LAUNCHER_SECOND_PATCHED: &'static str = "\"$ruby_path\" \"$(realpath \"$runsuite_path\")\" \"$@\"";

/// The launcher of the validator, so that it keeps arguments with spaces whole.
pub fn patch_aax_validator_dtt_launcher(content: &str) -> (patched: String)
    ensures
        patched@ == replaced(
            replaced(content@, LAUNCHER_FIRST@, LAUNCHER_FIRST_PATCHED@),
            LAUNCHER_SECOND@,
            LAUNCHER_SECOND_PATCHED@,
        ),
{
    proof {
        reveal_strlit("eval \"$ruby_path $(realpath $runsuite_path) $@\" ");
        reveal_strlit("eval \"$ruby_path $(realpath $runsuite_path) $@\"");
    }
    let first = replace(content, LAUNCHER_FIRST, LAUNCHER_FIRST_PATCHED);
    replace(first.as_str(), LAUNCHER_SECOND, LAUNCHER_SECOND_PATCHED)
}

pub const RUN_ALL_FIRST: &'static str = "        :out_path           => [Dir.tmpdir()],\n        :mode               => ['all',['all', 'fast', 'required', 'info', 'tests']],";

pub const RUN_ALL_FIRST_PATCHED: &'static str = "        :out_path           => [Dir.tmpdir()],\n        :aaxplugin_path     => [''], #direct plug-in bundle path supplied by wrac_xtask\n        :mode               => ['all',['all', 'fast', 'required', 'info', 'tests']],";

pub const RUN_ALL_SECOND: &'static str = "    plugins = dsh.findaaxplugins(pi_path_fixed)";

pub const RUN_ALL_SECOND_PATCHED: &'static str = "    if !aaxplugin_path.empty?\n      plugins = {'aaxplugin_paths' => [aaxplugin_path]}\n    else\n      plugins = dsh.findaaxplugins(pi_path_fixed)\n      if plugins['aaxplugin_paths'].is_a?(String)\n        plugins['aaxplugin_paths'] = plugins['aaxplugin_paths'].empty? ? [] : [plugins['aaxplugin_paths']]\n      end\n    end";

/// The script that runs all tests, so that it takes the bundle to test directly.
pub fn patch_aax_validator_run_all_tests_script(content: &str) -> (patched: String)
    ensures
        patched@ == replaced(
            replaced(content@, RUN_ALL_FIRST@, RUN_ALL_FIRST_PATCHED@),
            RUN_ALL_SECOND@,
            RUN_ALL_SECOND_PATCHED@,
        ),
{
    proof {
        reveal_strlit("        :out_path           => [Dir.tmpdir()],\n        :mode               => ['all',['all', 'fast', 'required', 'info', 'tests']],");
        reveal_strlit("    plugins = dsh.findaaxplugins(pi_path_fixed)");
    }
    let first = replace(content, RUN_ALL_FIRST, RUN_ALL_FIRST_PATCHED);
    replace(first.as_str(), RUN_ALL_SECOND, RUN_ALL_SECOND_PATCHED)
}

pub const BUNDLE_FIRST: &'static str = ":bundle_path => ['Trim.aaxplugin']";

pub const BUNDLE_FIRST_PATCHED: &'static str = ":bundle_path => [ENV.fetch('WRAC_AAXPLUGIN_PATH', 'Trim.aaxplugin')]";

pub const BUNDLE_SECOND: &'static str = ":bundle_path => ['LoadUnloadFail.aaxplugin']";

pub const BUNDLE_SECOND_PATCHED: &'static str = ":bundle_path => [ENV.fetch('WRAC_AAXPLUGIN_PATH', 'LoadUnloadFail.aaxplugin')]";

/// A test script, so that it tests the staged bundle in place of a sample.
pub fn patch_aax_validator_bundle_path_script(content: &str) -> (patched: String)
    ensures
        patched@ == replaced(
            replaced(content@, BUNDLE_FIRST@, BUNDLE_FIRST_PATCHED@),
            BUNDLE_SECOND@,
            BUNDLE_SECOND_PATCHED@,
        ),
{
    proof {
        reveal_strlit(":bundle_path => ['Trim.aaxplugin']");
        reveal_strlit(":bundle_path => ['LoadUnloadFail.aaxplugin']");
    }
    let first = replace(content, BUNDLE_FIRST, BUNDLE_FIRST_PATCHED);
    replace(first.as_str(), BUNDLE_SECOND, BUNDLE_SECOND_PATCHED)
}

pub const SYSINFO_FIRST: &'static str = "disk['Container Free Space'] ||= disk['Container Available Space']\n          disk['Container Free Space'] = disk['Container Free Space'][/^(\\d*\\.?\\d*\\s\\w+)/]";

pub const SYSINFO_FIRST_PATCHED: &'static str = "disk['Container Free Space'] ||= disk['Container Available Space'] || disk['Volume Free Space'] || UNKNOWN_VALUE\n          disk['Container Free Space'] = disk['Container Free Space'][/^(\\d*\\.?\\d*\\s\\w+)/] || disk['Container Free Space']";

pub const SYSINFO_SECOND: &'static str = "disk['Total Size'] ||= disk['Container Total Space']\n          disk['Total Size'] = disk['Total Size'][/^(\\d*\\.?\\d*\\s\\w+)/]";

pub const SYSINFO_SECOND_PATCHED: &'static str = "disk['Total Size'] ||= disk['Container Total Space'] || disk['Disk Size'] || UNKNOWN_VALUE\n          disk['Total Size'] = disk['Total Size'][/^(\\d*\\.?\\d*\\s\\w+)/] || disk['Total Size']";

/// The system survey, so that it accepts volumes without container fields.
pub fn normalize_macos_aax_validator_sysinfo(content: &str) -> (patched: String)
    ensures
        patched@ == replaced(
            replaced(content@, SYSINFO_FIRST@, SYSINFO_FIRST_PATCHED@),
            SYSINFO_SECOND@,
            SYSINFO_SECOND_PATCHED@,
        ),
{
    proof {
        reveal_strlit("disk['Container Free Space'] ||= disk['Container Available Space']\n          disk['Container Free Space'] = disk['Container Free Space'][/^(\\d*\\.?\\d*\\s\\w+)/]");
        reveal_strlit("disk['Total Size'] ||= disk['Container Total Space']\n          disk['Total Size'] = disk['Total Size'][/^(\\d*\\.?\\d*\\s\\w+)/]");
    }
    let first = replace(content, SYSINFO_FIRST, SYSINFO_FIRST_PATCHED);
    replace(first.as_str(), SYSINFO_SECOND, SYSINFO_SECOND_PATCHED)
}

pub const CONFIG_FIRST: &'static str = "elem: \"\\'bundle_path=$AAXVAL_PARAM_AAXPLUGIN$\\'\"";

pub const CONFIG_FIRST_PATCHED: &'static str = "elem: \"\\\"bundle_path=$AAXVAL_PARAM_AAXPLUGIN$\\\"\"";

pub const CONFIG_SECOND: &'static str = "elem: \"\\'uniq_id=$AAXVAL_PARAM_UNIQ_ID$\\'\"";

pub const CONFIG_SECOND_PATCHED: &'static str = "elem: \"\\\"uniq_id=$AAXVAL_PARAM_UNIQ_ID$\\\"\"";

/// The configuration of the validator, so that its arguments reach the scripts.
pub fn normalize_aax_validator_main_config(content: &str) -> (patched: String)
    ensures
        patched@ == replaced(
            replaced(content@, CONFIG_FIRST@, CONFIG_FIRST_PATCHED@),
            CONFIG_SECOND@,
            CONFIG_SECOND_PATCHED@,
        ),
{
    proof {
        reveal_strlit("elem: \"\\'bundle_path=$AAXVAL_PARAM_AAXPLUGIN$\\'\"");
        reveal_strlit("elem: \"\\'uniq_id=$AAXVAL_PARAM_UNIQ_ID$\\'\"");
    }
    let first = replace(content, CONFIG_FIRST, CONFIG_FIRST_PATCHED);
    replace(first.as_str(), CONFIG_SECOND, CONFIG_SECOND_PATCHED)
}

/// A bundle has to pass these tests, each once, in this order.
pub proof fn bundles_have_to_pass_these_tests(tests: Vec<&'static str>)
    requires
        call_ensures(aax_validator_required_tests, (), tests),
    ensures
        tests@.len() == 12,
        tests@[0]@ == "info.productids"@,
        tests@[1]@ == "info.support.audiosuite"@,
        tests@[2]@ == "info.support.general"@,
        tests@[3]@ == "info.support.s6_feature"@,
        tests@[4]@ == "test.data_model"@,
        tests@[5]@ == "test.describe_validation"@,
        tests@[6]@ == "test.load_unload"@,
        tests@[7]@ == "test.page_table.automation_list"@,
        tests@[8]@ == "test.parameter_traversal.linear"@,
        tests@[9]@ == "test.parameter_traversal.random"@,
        tests@[10]@ == "test.parameter_traversal.random.fast"@,
        tests@[11]@ == "test.parameters"@,
{
    assert(names_of(tests@).len() == tests@.len());
    assert(names_of(tests@)[0] == tests@[0]@);
    assert(names_of(tests@)[1] == tests@[1]@);
    assert(names_of(tests@)[2] == tests@[2]@);
    assert(names_of(tests@)[3] == tests@[3]@);
    assert(names_of(tests@)[4] == tests@[4]@);
    assert(names_of(tests@)[5] == tests@[5]@);
    assert(names_of(tests@)[6] == tests@[6]@);
    assert(names_of(tests@)[7] == tests@[7]@);
    assert(names_of(tests@)[8] == tests@[8]@);
    assert(names_of(tests@)[9] == tests@[9]@);
    assert(names_of(tests@)[10] == tests@[10]@);
    assert(names_of(tests@)[11] == tests@[11]@);
}

/// The directory of a test starts with its number, counted from one and with at least two digits,
/// and goes on with its name, in which an underscore stands for every dot. Its result lies beside
/// it.
pub proof fn directories_are_named_after_their_test(
    index: usize,
    test_id: &str,
    directory: String,
    result: String,
    i: int,
)
    requires
        index < usize::MAX,
        call_ensures(aax_validator_test_directory, (index, test_id), directory),
        call_ensures(aax_validator_result_path, (index, test_id), result),
    ensures
        ({
            let number = decimal((index + 1) as nat);
            let start = if index < 9 {
                "0"@ + number + "-"@
            } else {
                number + "-"@
            };
            &&& directory@.len() == start.len() + test_id@.len()
            &&& directory@.take(start.len() as int) == start
            &&& 0 <= i < test_id@.len() ==> directory@[start.len() + i] == if test_id@[i] == '.' {
                '_'
            } else {
                test_id@[i]
            }
        }),
        result@ == directory@ + ".json"@,
{
    let start = two_digits((index + 1) as nat) + "-"@;
    assert(directory@.take(start.len() as int) =~= start);
}

/// The validator takes paths with backslashes on Windows, and as they are elsewhere.
pub proof fn paths_suit_the_validator(platform: Platform, path: &str, taken: String, i: int)
    requires
        call_ensures(aax_validator_cli_path, (platform, path), taken),
    ensures
        !(platform is Windows) ==> taken@ == path@,
        taken@.len() == path@.len(),
        platform is Windows && 0 <= i < path@.len() ==> taken@[i] == if path@[i] == '/' {
            '\\'
        } else {
            path@[i]
        },
{
}

/// The validator is told which test to run, where to look for the bundle, where to leave its
/// results and its log, and how long to wait; on Windows, where the search can come back empty, it
/// is told of the bundle as well.
pub proof fn validators_are_told_what_to_run(run: DttRun, args: Vec<String>)
    requires
        call_ensures(aax_validator_dtt_args, (&run,), args),
    ensures
        args@[0]@ == "--script"@ && args@[1]@ == "ValidatorRunAllTests"@,
        args@[6]@ == "--timeout_factor"@ && args@[7]@ == decimal(run.timeout_factor as nat),
        args@[8]@ == "--logdir"@ && args@[9]@ == cli_path(run.platform, run.log_dir@),
        args@[10]@ == "--arg"@ && args@[11]@ == "pi_path="@ + cli_path(run.platform, run.search_dir@),
        args@[12]@ == "--arg"@ && args@[13]@ == "out_path="@ + cli_path(run.platform, run.test_dir@),
        args@[14]@ == "--arg"@ && args@[15]@ == "result_format=json"@,
        args@[16]@ == "--arg"@ && args@[17]@ == "test_id="@ + run.test_id@,
        run.platform is Windows ==> args@.len() == 20 && args@[18]@ == "--arg"@ && args@[19]@
            == "aaxplugin_path="@ + cli_path(run.platform, run.bundle@),
        !(run.platform is Windows) ==> args@.len() == 18,
{
    assert(texts(args@).len() == args@.len());
    assert(texts(args@)[0] == args@[0]@);
    assert(texts(args@)[1] == args@[1]@);
    assert(texts(args@)[6] == args@[6]@);
    assert(texts(args@)[7] == args@[7]@);
    assert(texts(args@)[8] == args@[8]@);
    assert(texts(args@)[9] == args@[9]@);
    assert(texts(args@)[10] == args@[10]@);
    assert(texts(args@)[11] == args@[11]@);
    assert(texts(args@)[12] == args@[12]@);
    assert(texts(args@)[13] == args@[13]@);
    assert(texts(args@)[14] == args@[14]@);
    assert(texts(args@)[15] == args@[15]@);
    assert(texts(args@)[16] == args@[16]@);
    assert(texts(args@)[17] == args@[17]@);
    if run.platform is Windows {
        assert(texts(args@)[18] == args@[18]@);
        assert(texts(args@)[19] == args@[19]@);
    }
}

proof fn lemma_result_count(names: Seq<Seq<char>>, test_id: Seq<char>, n: int)
    requires
        0 <= n <= names.len(),
    ensures
        result_count(names, test_id, n) == 0 <==> forall|i: int|
            0 <= i < n ==> !is_result_of(#[trigger] names[i], test_id),
        result_count(names, test_id, n) == 1 ==> forall|i: int, j: int|
            0 <= i < j < n ==> !(is_result_of(#[trigger] names[i], test_id) && is_result_of(
                #[trigger] names[j],
                test_id,
            )),
    decreases n,
{
    if n > 0 {
        lemma_result_count(names, test_id, n - 1);
    }
}

/// The result of a test is the one file that starts with the name of the test and two underscores
/// and ends as a JSON document; where there is none, or another one, there is no result.
pub proof fn results_are_the_only_ones_of_their_test(
    names: Vec<String>,
    test_id: &str,
    result_dir: &str,
    result: Result<usize, String>,
    j: int,
)
    requires
        call_ensures(find_aax_validator_dtt_result, (&names, test_id, result_dir), result),
    ensures
        result matches Ok(i) ==> {
            &&& i < names@.len()
            &&& (test_id@ + "__"@).is_prefix_of(names@[i as int]@)
            &&& ".json"@.is_suffix_of(names@[i as int]@)
            &&& 0 <= j < names@.len() && j != i ==> !((test_id@ + "__"@).is_prefix_of(names@[j]@)
                && ".json"@.is_suffix_of(names@[j]@))
        },
        (forall|k: int|
            0 <= k < names@.len() ==> !((test_id@ + "__"@).is_prefix_of((#[trigger] names@[k])@)
                && ".json"@.is_suffix_of(names@[k]@))) ==> (result matches Err(message) && message@
            == "AAX validator/DTT did not write a JSON result for "@ + test_id@ + " under "@
            + result_dir@),
{
    let all = texts(names@);
    lemma_result_count(all, test_id@, all.len() as int);
    if let Ok(i) = result {
        assert(all[i as int] == names@[i as int]@);
        if 0 <= j < names@.len() && j != i {
            assert(all[j] == names@[j]@);
            if i < j {
                assert(!(is_result_of(all[i as int], test_id@) && is_result_of(all[j], test_id@)));
            } else {
                assert(!(is_result_of(all[j], test_id@) && is_result_of(all[i as int], test_id@)));
            }
        }
    }
    if forall|k: int|
        0 <= k < names@.len() ==> !((test_id@ + "__"@).is_prefix_of((#[trigger] names@[k])@)
            && ".json"@.is_suffix_of(names@[k]@)) {
        assert forall|k: int| 0 <= k < all.len() implies !is_result_of(
            #[trigger] all[k],
            test_id@,
        ) by {
            assert(all[k] == names@[k]@);
        }
    }
}

/// A status that was read is taken as it is; a result without one, or one that cannot be read, is
/// named by its path.
pub proof fn statuses_are_taken_as_they_are(
    status: String,
    error: String,
    path: &str,
    read: Result<String, String>,
    missing: Result<String, String>,
    broken: Result<String, String>,
)
    requires
        call_ensures(aax_validator_status, (Ok(Some(status)), path), read),
        call_ensures(aax_validator_status, (Ok(None), path), missing),
        call_ensures(aax_validator_status, (Err(error), path), broken),
    ensures
        read matches Ok(text) && text@ == status@,
        missing matches Err(message) && message@
            == "AAX validator result did not include result_status: "@ + path@,
        broken matches Err(message) && message@ == "failed to parse AAX validator result "@ + path@
            + ": "@ + error@,
{
}

/// Results are accepted exactly where every test has completed and passed.
pub proof fn one_failed_test_fails_the_validation(
    statuses: Vec<String>,
    result: Result<(), String>,
)
    requires
        statuses@.len() == 12,
        call_ensures(assert_aax_validator_results, (&statuses,), result),
    ensures
        result is Ok <==> forall|i: int|
            0 <= i < 12 ==> (#[trigger] statuses@[i])@ == "E_COMPLETED_PASS"@,
{
    let all = texts(statuses@);
    results_pass_where_every_test_passed(all, 12);
    if forall|i: int| 0 <= i < 12 ==> (#[trigger] statuses@[i])@ == "E_COMPLETED_PASS"@ {
        assert forall|i: int| 0 <= i < 12 implies #[trigger] all[i] == "E_COMPLETED_PASS"@ by {
            assert(all[i] == statuses@[i]@);
        }
    }
    if forall|i: int| 0 <= i < 12 ==> #[trigger] all[i] == "E_COMPLETED_PASS"@ {
        assert forall|i: int| 0 <= i < 12 implies (#[trigger] statuses@[i])@
            == "E_COMPLETED_PASS"@ by {
            assert(all[i] == statuses@[i]@);
        }
    }
}

/// Without a setting a run may take a quarter of an hour and timeouts are stretched tenfold; a
/// setting that is a number is taken as it is, but for a factor of zero; one that is none, or that
/// cannot be read, is refused.
pub proof fn settings_are_numbers(
    value: EnvironmentValue,
    n: u32,
    timeout: Result<u64, String>,
    factor: Result<u32, String>,
)
    requires
        call_ensures(aax_validator_timeout, (&value,), timeout),
        call_ensures(aax_validator_dtt_timeout_factor, (&value,), factor),
    ensures
        value is Unset ==> timeout == Ok::<u64, String>(900) && factor == Ok::<u32, String>(10),
        value is Unreadable ==> timeout is Err && factor is Err,
        value matches EnvironmentValue::Text { value: text } ==> (text@ == decimal(n as nat) ==> {
            &&& timeout == Ok::<u64, String>(n as u64)
            &&& n > 0 ==> factor == Ok::<u32, String>(n)
            &&& n == 0 ==> factor is Err && factor->Err_0@
                == "AAX_VALIDATOR_DTT_TIMEOUT_FACTOR must be greater than 0"@
        }),
{
    crate::text::reading_undoes_writing(n as nat, u64::MAX as nat);
    crate::text::reading_undoes_writing(n as nat, u32::MAX as nat);
}

/// A run that has ended is not stopped, one that has taken its time is, and one that has time left
/// is looked at again.
pub proof fn runs_are_stopped_when_their_time_is_up(
    ended: bool,
    elapsed: u128,
    timeout_secs: u64,
    step: WaitStep,
)
    requires
        call_ensures(wait_for_aax_validator_process, (ended, elapsed, timeout_secs), step),
    ensures
        step is Ended <==> ended,
        step is TimedOut <==> !ended && elapsed >= timeout_secs * 1_000_000_000,
        step is Sleep <==> !ended && elapsed < timeout_secs * 1_000_000_000,
{
}

proof fn lemma_plain_chars(s: Seq<char>)
    ensures
        forall|i: int|
            0 <= i < plain_chars(s).len() ==> is_plain_char(#[trigger] plain_chars(s)[i]),
        (forall|i: int| 0 <= i < s.len() ==> is_plain_char(#[trigger] s[i])) ==> plain_chars(s) == s,
    decreases s.len(),
{
    if s.len() > 0 {
        lemma_plain_chars(s.drop_last());
        let before = plain_chars(s.drop_last());
        let all = plain_chars(s);
        assert forall|i: int| 0 <= i < all.len() implies is_plain_char(#[trigger] all[i]) by {
            if i < before.len() {
                assert(all[i] == before[i]);
            }
        }
        if forall|i: int| 0 <= i < s.len() ==> is_plain_char(#[trigger] s[i]) {
            assert forall|i: int| 0 <= i < s.drop_last().len() implies is_plain_char(
                #[trigger] s.drop_last()[i],
            ) by {
                assert(is_plain_char(s[i]));
            }
            assert(s.drop_last().push(s.last()) =~= s);
        }
    }
}

/// A bundle is staged under its own name, but on Windows without the characters that the validator
/// cannot take; a bundle whose name has none of them keeps it. The extension is always there.
pub proof fn staged_bundles_have_plain_names(
    stem: Seq<char>,
    bundle_name: &str,
    windows: String,
    staged: String,
    platform: Platform,
    i: int,
)
    requires
        bundle_name@ == stem + ".aaxplugin"@,
        call_ensures(windows_aax_validator_bundle_name, (bundle_name,), windows),
        call_ensures(staged_aax_bundle_name, (platform, bundle_name), staged),
    ensures
        platform is Windows ==> staged@ == windows@,
        !(platform is Windows) ==> staged@ == bundle_name@,
        ".aaxplugin"@.is_suffix_of(windows@),
        windows@.len() > ".aaxplugin"@.len(),
        0 <= i < windows@.len() - ".aaxplugin"@.len() ==> {
            let c = windows@[i];
            'a' <= c <= 'z' || 'A' <= c <= 'Z' || '0' <= c <= '9' || c == '_' || c == '-'
        },
        stem.len() > 0 && (forall|k: int| 0 <= k < stem.len() ==> is_plain_char(#[trigger] stem[k]))
            ==> windows@ == bundle_name@,
{
    reveal_strlit("Plugin");
    reveal_strlit(".aaxplugin");
    lemma_plain_chars(stem);
    let name = bundle_name@;
    let n = ".aaxplugin"@.len() as int;
    assert(name.subrange(name.len() - n, name.len() as int) =~= ".aaxplugin"@);
    assert(bundle_stem(name) =~= stem);
    let plain = plain_chars(stem);
    let start = if plain.len() == 0 {
        "Plugin"@
    } else {
        plain
    };
    assert(windows@ == start + ".aaxplugin"@);
    assert(windows@.subrange(windows@.len() - n, windows@.len() as int) =~= ".aaxplugin"@);
    if 0 <= i < windows@.len() - n {
        assert(windows@[i] == start[i]);
        if plain.len() > 0 {
            assert(is_plain_char(plain[i]));
        }
    }
}

/// Whether a text stands between two others and nowhere else in the whole.
pub open spec fn stands_once(text: Seq<char>, front: Seq<char>, back: Seq<char>) -> bool {
    &&& forall|j: int| 0 <= j < front.len() ==> !#[trigger] stands_at(front + text + back, text, j)
    &&& !occurs_in(text, back)
}

proof fn lemma_patched(
    front: Seq<char>,
    from: Seq<char>,
    to: Seq<char>,
    back: Seq<char>,
    other: Seq<char>,
)
    requires
        from.len() > 0,
        stands_once(from, front, back),
        !occurs_in(from, other),
    ensures
        replaced(front + from + back, from, to) == front + to + back,
        replaced(other, from, to) == other,
{
    the_first_occurrence_is_replaced(front, from, to, back, back);
    the_first_occurrence_is_replaced(front, from, to, back, other);
}

/// The launcher hands its arguments on one by one, and nothing else of it changes.
pub proof fn launchers_keep_arguments_whole(
    front: Seq<char>,
    back: Seq<char>,
    first: &str,
    second: &str,
    other: &str,
    first_patched: String,
    second_patched: String,
    kept: String,
)
    requires
        call_ensures(patch_aax_validator_dtt_launcher, (first,), first_patched),
        call_ensures(patch_aax_validator_dtt_launcher, (second,), second_patched),
        call_ensures(patch_aax_validator_dtt_launcher, (other,), kept),
        stands_once("eval \"$ruby_path $(realpath $runsuite_path) $@\" "@, front, back),
        stands_once("eval \"$ruby_path $(realpath $runsuite_path) $@\""@, front, back),
        first@ == front + "eval \"$ruby_path $(realpath $runsuite_path) $@\" "@ + back,
        !occurs_in("eval \"$ruby_path $(realpath $runsuite_path) $@\""@, front + "\"$ruby_path\" \"$(realpath \"$runsuite_path\")\" \"$@\" "@ + back),
        second@ == front + "eval \"$ruby_path $(realpath $runsuite_path) $@\""@ + back,
        !occurs_in("eval \"$ruby_path $(realpath $runsuite_path) $@\" "@, second@),
        !occurs_in("eval \"$ruby_path $(realpath $runsuite_path) $@\" "@, other@),
        !occurs_in("eval \"$ruby_path $(realpath $runsuite_path) $@\""@, other@),
    ensures
        first_patched@ == front + "\"$ruby_path\" \"$(realpath \"$runsuite_path\")\" \"$@\" "@ + back,
        second_patched@ == front + "\"$ruby_path\" \"$(realpath \"$runsuite_path\")\" \"$@\""@ + back,
        kept@ == other@,
{
    reveal_strlit("eval \"$ruby_path $(realpath $runsuite_path) $@\" ");
    reveal_strlit("eval \"$ruby_path $(realpath $runsuite_path) $@\"");
    lemma_patched(front, "eval \"$ruby_path $(realpath $runsuite_path) $@\" "@, "\"$ruby_path\" \"$(realpath \"$runsuite_path\")\" \"$@\" "@, back, other@);
    lemma_patched(front, "eval \"$ruby_path $(realpath $runsuite_path) $@\""@, "\"$ruby_path\" \"$(realpath \"$runsuite_path\")\" \"$@\""@, back, other@);
    the_first_occurrence_is_replaced(
        Seq::empty(),
        "eval \"$ruby_path $(realpath $runsuite_path) $@\""@,
        "\"$ruby_path\" \"$(realpath \"$runsuite_path\")\" \"$@\""@,
        Seq::empty(),
        front + "\"$ruby_path\" \"$(realpath \"$runsuite_path\")\" \"$@\" "@ + back,
    );
    the_first_occurrence_is_replaced(
        Seq::empty(),
        "eval \"$ruby_path $(realpath $runsuite_path) $@\" "@,
        "\"$ruby_path\" \"$(realpath \"$runsuite_path\")\" \"$@\" "@,
        Seq::empty(),
        second@,
    );
}

/// The script that runs all tests takes the path of a bundle, uses it where it has one, and else
/// searches as before.
pub proof fn run_scripts_take_the_bundle_directly(
    front: Seq<char>,
    back: Seq<char>,
    first: &str,
    second: &str,
    other: &str,
    first_patched: String,
    second_patched: String,
    kept: String,
)
    requires
        call_ensures(patch_aax_validator_run_all_tests_script, (first,), first_patched),
        call_ensures(patch_aax_validator_run_all_tests_script, (second,), second_patched),
        call_ensures(patch_aax_validator_run_all_tests_script, (other,), kept),
        stands_once("        :out_path           => [Dir.tmpdir()],\n        :mode               => ['all',['all', 'fast', 'required', 'info', 'tests']],"@, front, back),
        stands_once("    plugins = dsh.findaaxplugins(pi_path_fixed)"@, front, back),
        first@ == front + "        :out_path           => [Dir.tmpdir()],\n        :mode               => ['all',['all', 'fast', 'required', 'info', 'tests']],"@ + back,
        !occurs_in("    plugins = dsh.findaaxplugins(pi_path_fixed)"@, front + "        :out_path           => [Dir.tmpdir()],\n        :aaxplugin_path     => [''], #direct plug-in bundle path supplied by wrac_xtask\n        :mode               => ['all',['all', 'fast', 'required', 'info', 'tests']],"@ + back),
        second@ == front + "    plugins = dsh.findaaxplugins(pi_path_fixed)"@ + back,
        !occurs_in("        :out_path           => [Dir.tmpdir()],\n        :mode               => ['all',['all', 'fast', 'required', 'info', 'tests']],"@, second@),
        !occurs_in("        :out_path           => [Dir.tmpdir()],\n        :mode               => ['all',['all', 'fast', 'required', 'info', 'tests']],"@, other@),
        !occurs_in("    plugins = dsh.findaaxplugins(pi_path_fixed)"@, other@),
    ensures
        first_patched@ == front + "        :out_path           => [Dir.tmpdir()],\n        :aaxplugin_path     => [''], #direct plug-in bundle path supplied by wrac_xtask\n        :mode               => ['all',['all', 'fast', 'required', 'info', 'tests']],"@ + back,
        second_patched@ == front + "    if !aaxplugin_path.empty?\n      plugins = {'aaxplugin_paths' => [aaxplugin_path]}\n    else\n      plugins = dsh.findaaxplugins(pi_path_fixed)\n      if plugins['aaxplugin_paths'].is_a?(String)\n        plugins['aaxplugin_paths'] = plugins['aaxplugin_paths'].empty? ? [] : [plugins['aaxplugin_paths']]\n      end\n    end"@ + back,
        kept@ == other@,
{
    reveal_strlit("        :out_path           => [Dir.tmpdir()],\n        :mode               => ['all',['all', 'fast', 'required', 'info', 'tests']],");
    reveal_strlit("    plugins = dsh.findaaxplugins(pi_path_fixed)");
    lemma_patched(front, "        :out_path           => [Dir.tmpdir()],\n        :mode               => ['all',['all', 'fast', 'required', 'info', 'tests']],"@, "        :out_path           => [Dir.tmpdir()],\n        :aaxplugin_path     => [''], #direct plug-in bundle path supplied by wrac_xtask\n        :mode               => ['all',['all', 'fast', 'required', 'info', 'tests']],"@, back, other@);
    lemma_patched(front, "    plugins = dsh.findaaxplugins(pi_path_fixed)"@, "    if !aaxplugin_path.empty?\n      plugins = {'aaxplugin_paths' => [aaxplugin_path]}\n    else\n      plugins = dsh.findaaxplugins(pi_path_fixed)\n      if plugins['aaxplugin_paths'].is_a?(String)\n        plugins['aaxplugin_paths'] = plugins['aaxplugin_paths'].empty? ? [] : [plugins['aaxplugin_paths']]\n      end\n    end"@, back, other@);
    the_first_occurrence_is_replaced(
        Seq::empty(),
        "    plugins = dsh.findaaxplugins(pi_path_fixed)"@,
        "    if !aaxplugin_path.empty?\n      plugins = {'aaxplugin_paths' => [aaxplugin_path]}\n    else\n      plugins = dsh.findaaxplugins(pi_path_fixed)\n      if plugins['aaxplugin_paths'].is_a?(String)\n        plugins['aaxplugin_paths'] = plugins['aaxplugin_paths'].empty? ? [] : [plugins['aaxplugin_paths']]\n      end\n    end"@,
        Seq::empty(),
        front + "        :out_path           => [Dir.tmpdir()],\n        :aaxplugin_path     => [''], #direct plug-in bundle path supplied by wrac_xtask\n        :mode               => ['all',['all', 'fast', 'required', 'info', 'tests']],"@ + back,
    );
    the_first_occurrence_is_replaced(
        Seq::empty(),
        "        :out_path           => [Dir.tmpdir()],\n        :mode               => ['all',['all', 'fast', 'required', 'info', 'tests']],"@,
        "        :out_path           => [Dir.tmpdir()],\n        :aaxplugin_path     => [''], #direct plug-in bundle path supplied by wrac_xtask\n        :mode               => ['all',['all', 'fast', 'required', 'info', 'tests']],"@,
        Seq::empty(),
        second@,
    );
}

/// A test script takes the bundle from its environment, and its own sample where there is none.
pub proof fn test_scripts_take_the_staged_bundle(
    front: Seq<char>,
    back: Seq<char>,
    first: &str,
    second: &str,
    other: &str,
    first_patched: String,
    second_patched: String,
    kept: String,
)
    requires
        call_ensures(patch_aax_validator_bundle_path_script, (first,), first_patched),
        call_ensures(patch_aax_validator_bundle_path_script, (second,), second_patched),
        call_ensures(patch_aax_validator_bundle_path_script, (other,), kept),
        stands_once(":bundle_path => ['Trim.aaxplugin']"@, front, back),
        stands_once(":bundle_path => ['LoadUnloadFail.aaxplugin']"@, front, back),
        first@ == front + ":bundle_path => ['Trim.aaxplugin']"@ + back,
        !occurs_in(":bundle_path => ['LoadUnloadFail.aaxplugin']"@, front + ":bundle_path => [ENV.fetch('WRAC_AAXPLUGIN_PATH', 'Trim.aaxplugin')]"@ + back),
        second@ == front + ":bundle_path => ['LoadUnloadFail.aaxplugin']"@ + back,
        !occurs_in(":bundle_path => ['Trim.aaxplugin']"@, second@),
        !occurs_in(":bundle_path => ['Trim.aaxplugin']"@, other@),
        !occurs_in(":bundle_path => ['LoadUnloadFail.aaxplugin']"@, other@),
    ensures
        first_patched@ == front + ":bundle_path => [ENV.fetch('WRAC_AAXPLUGIN_PATH', 'Trim.aaxplugin')]"@ + back,
        second_patched@ == front + ":bundle_path => [ENV.fetch('WRAC_AAXPLUGIN_PATH', 'LoadUnloadFail.aaxplugin')]"@ + back,
        kept@ == other@,
{
    reveal_strlit(":bundle_path => ['Trim.aaxplugin']");
    reveal_strlit(":bundle_path => ['LoadUnloadFail.aaxplugin']");
    lemma_patched(front, ":bundle_path => ['Trim.aaxplugin']"@, ":bundle_path => [ENV.fetch('WRAC_AAXPLUGIN_PATH', 'Trim.aaxplugin')]"@, back, other@);
    lemma_patched(front, ":bundle_path => ['LoadUnloadFail.aaxplugin']"@, ":bundle_path => [ENV.fetch('WRAC_AAXPLUGIN_PATH', 'LoadUnloadFail.aaxplugin')]"@, back, other@);
    the_first_occurrence_is_replaced(
        Seq::empty(),
        ":bundle_path => ['LoadUnloadFail.aaxplugin']"@,
        ":bundle_path => [ENV.fetch('WRAC_AAXPLUGIN_PATH', 'LoadUnloadFail.aaxplugin')]"@,
        Seq::empty(),
        front + ":bundle_path => [ENV.fetch('WRAC_AAXPLUGIN_PATH', 'Trim.aaxplugin')]"@ + back,
    );
    the_first_occurrence_is_replaced(
        Seq::empty(),
        ":bundle_path => ['Trim.aaxplugin']"@,
        ":bundle_path => [ENV.fetch('WRAC_AAXPLUGIN_PATH', 'Trim.aaxplugin')]"@,
        Seq::empty(),
        second@,
    );
}

/// The survey of the system falls back on other fields of a volume.
pub proof fn system_surveys_accept_other_volumes(
    front: Seq<char>,
    back: Seq<char>,
    first: &str,
    second: &str,
    other: &str,
    first_patched: String,
    second_patched: String,
    kept: String,
)
    requires
        call_ensures(normalize_macos_aax_validator_sysinfo, (first,), first_patched),
        call_ensures(normalize_macos_aax_validator_sysinfo, (second,), second_patched),
        call_ensures(normalize_macos_aax_validator_sysinfo, (other,), kept),
        stands_once("disk['Container Free Space'] ||= disk['Container Available Space']\n          disk['Container Free Space'] = disk['Container Free Space'][/^(\\d*\\.?\\d*\\s\\w+)/]"@, front, back),
        stands_once("disk['Total Size'] ||= disk['Container Total Space']\n          disk['Total Size'] = disk['Total Size'][/^(\\d*\\.?\\d*\\s\\w+)/]"@, front, back),
        first@ == front + "disk['Container Free Space'] ||= disk['Container Available Space']\n          disk['Container Free Space'] = disk['Container Free Space'][/^(\\d*\\.?\\d*\\s\\w+)/]"@ + back,
        !occurs_in("disk['Total Size'] ||= disk['Container Total Space']\n          disk['Total Size'] = disk['Total Size'][/^(\\d*\\.?\\d*\\s\\w+)/]"@, front + "disk['Container Free Space'] ||= disk['Container Available Space'] || disk['Volume Free Space'] || UNKNOWN_VALUE\n          disk['Container Free Space'] = disk['Container Free Space'][/^(\\d*\\.?\\d*\\s\\w+)/] || disk['Container Free Space']"@ + back),
        second@ == front + "disk['Total Size'] ||= disk['Container Total Space']\n          disk['Total Size'] = disk['Total Size'][/^(\\d*\\.?\\d*\\s\\w+)/]"@ + back,
        !occurs_in("disk['Container Free Space'] ||= disk['Container Available Space']\n          disk['Container Free Space'] = disk['Container Free Space'][/^(\\d*\\.?\\d*\\s\\w+)/]"@, second@),
        !occurs_in("disk['Container Free Space'] ||= disk['Container Available Space']\n          disk['Container Free Space'] = disk['Container Free Space'][/^(\\d*\\.?\\d*\\s\\w+)/]"@, other@),
        !occurs_in("disk['Total Size'] ||= disk['Container Total Space']\n          disk['Total Size'] = disk['Total Size'][/^(\\d*\\.?\\d*\\s\\w+)/]"@, other@),
    ensures
        first_patched@ == front + "disk['Container Free Space'] ||= disk['Container Available Space'] || disk['Volume Free Space'] || UNKNOWN_VALUE\n          disk['Container Free Space'] = disk['Container Free Space'][/^(\\d*\\.?\\d*\\s\\w+)/] || disk['Container Free Space']"@ + back,
        second_patched@ == front + "disk['Total Size'] ||= disk['Container Total Space'] || disk['Disk Size'] || UNKNOWN_VALUE\n          disk['Total Size'] = disk['Total Size'][/^(\\d*\\.?\\d*\\s\\w+)/] || disk['Total Size']"@ + back,
        kept@ == other@,
{
    reveal_strlit("disk['Container Free Space'] ||= disk['Container Available Space']\n          disk['Container Free Space'] = disk['Container Free Space'][/^(\\d*\\.?\\d*\\s\\w+)/]");
    reveal_strlit("disk['Total Size'] ||= disk['Container Total Space']\n          disk['Total Size'] = disk['Total Size'][/^(\\d*\\.?\\d*\\s\\w+)/]");
    lemma_patched(front, "disk['Container Free Space'] ||= disk['Container Available Space']\n          disk['Container Free Space'] = disk['Container Free Space'][/^(\\d*\\.?\\d*\\s\\w+)/]"@, "disk['Container Free Space'] ||= disk['Container Available Space'] || disk['Volume Free Space'] || UNKNOWN_VALUE\n          disk['Container Free Space'] = disk['Container Free Space'][/^(\\d*\\.?\\d*\\s\\w+)/] || disk['Container Free Space']"@, back, other@);
    lemma_patched(front, "disk['Total Size'] ||= disk['Container Total Space']\n          disk['Total Size'] = disk['Total Size'][/^(\\d*\\.?\\d*\\s\\w+)/]"@, "disk['Total Size'] ||= disk['Container Total Space'] || disk['Disk Size'] || UNKNOWN_VALUE\n          disk['Total Size'] = disk['Total Size'][/^(\\d*\\.?\\d*\\s\\w+)/] || disk['Total Size']"@, back, other@);
    the_first_occurrence_is_replaced(
        Seq::empty(),
        "disk['Total Size'] ||= disk['Container Total Space']\n          disk['Total Size'] = disk['Total Size'][/^(\\d*\\.?\\d*\\s\\w+)/]"@,
        "disk['Total Size'] ||= disk['Container Total Space'] || disk['Disk Size'] || UNKNOWN_VALUE\n          disk['Total Size'] = disk['Total Size'][/^(\\d*\\.?\\d*\\s\\w+)/] || disk['Total Size']"@,
        Seq::empty(),
        front + "disk['Container Free Space'] ||= disk['Container Available Space'] || disk['Volume Free Space'] || UNKNOWN_VALUE\n          disk['Container Free Space'] = disk['Container Free Space'][/^(\\d*\\.?\\d*\\s\\w+)/] || disk['Container Free Space']"@ + back,
    );
    the_first_occurrence_is_replaced(
        Seq::empty(),
        "disk['Container Free Space'] ||= disk['Container Available Space']\n          disk['Container Free Space'] = disk['Container Free Space'][/^(\\d*\\.?\\d*\\s\\w+)/]"@,
        "disk['Container Free Space'] ||= disk['Container Available Space'] || disk['Volume Free Space'] || UNKNOWN_VALUE\n          disk['Container Free Space'] = disk['Container Free Space'][/^(\\d*\\.?\\d*\\s\\w+)/] || disk['Container Free Space']"@,
        Seq::empty(),
        second@,
    );
}

/// The configuration quotes its arguments so that scripts get them.
pub proof fn configurations_quote_their_arguments(
    front: Seq<char>,
    back: Seq<char>,
    first: &str,
    second: &str,
    other: &str,
    first_patched: String,
    second_patched: String,
    kept: String,
)
    requires
        call_ensures(normalize_aax_validator_main_config, (first,), first_patched),
        call_ensures(normalize_aax_validator_main_config, (second,), second_patched),
        call_ensures(normalize_aax_validator_main_config, (other,), kept),
        stands_once("elem: \"\\'bundle_path=$AAXVAL_PARAM_AAXPLUGIN$\\'\""@, front, back),
        stands_once("elem: \"\\'uniq_id=$AAXVAL_PARAM_UNIQ_ID$\\'\""@, front, back),
        first@ == front + "elem: \"\\'bundle_path=$AAXVAL_PARAM_AAXPLUGIN$\\'\""@ + back,
        !occurs_in("elem: \"\\'uniq_id=$AAXVAL_PARAM_UNIQ_ID$\\'\""@, front + "elem: \"\\\"bundle_path=$AAXVAL_PARAM_AAXPLUGIN$\\\"\""@ + back),
        second@ == front + "elem: \"\\'uniq_id=$AAXVAL_PARAM_UNIQ_ID$\\'\""@ + back,
        !occurs_in("elem: \"\\'bundle_path=$AAXVAL_PARAM_AAXPLUGIN$\\'\""@, second@),
        !occurs_in("elem: \"\\'bundle_path=$AAXVAL_PARAM_AAXPLUGIN$\\'\""@, other@),
        !occurs_in("elem: \"\\'uniq_id=$AAXVAL_PARAM_UNIQ_ID$\\'\""@, other@),
    ensures
        first_patched@ == front + "elem: \"\\\"bundle_path=$AAXVAL_PARAM_AAXPLUGIN$\\\"\""@ + back,
        second_patched@ == front + "elem: \"\\\"uniq_id=$AAXVAL_PARAM_UNIQ_ID$\\\"\""@ + back,
        kept@ == other@,
{
    reveal_strlit("elem: \"\\'bundle_path=$AAXVAL_PARAM_AAXPLUGIN$\\'\"");
    reveal_strlit("elem: \"\\'uniq_id=$AAXVAL_PARAM_UNIQ_ID$\\'\"");
    lemma_patched(front, "elem: \"\\'bundle_path=$AAXVAL_PARAM_AAXPLUGIN$\\'\""@, "elem: \"\\\"bundle_path=$AAXVAL_PARAM_AAXPLUGIN$\\\"\""@, back, other@);
    lemma_patched(front, "elem: \"\\'uniq_id=$AAXVAL_PARAM_UNIQ_ID$\\'\""@, "elem: \"\\\"uniq_id=$AAXVAL_PARAM_UNIQ_ID$\\\"\""@, back, other@);
    the_first_occurrence_is_replaced(
        Seq::empty(),
        "elem: \"\\'uniq_id=$AAXVAL_PARAM_UNIQ_ID$\\'\""@,
        "elem: \"\\\"uniq_id=$AAXVAL_PARAM_UNIQ_ID$\\\"\""@,
        Seq::empty(),
        front + "elem: \"\\\"bundle_path=$AAXVAL_PARAM_AAXPLUGIN$\\\"\""@ + back,
    );
    the_first_occurrence_is_replaced(
        Seq::empty(),
        "elem: \"\\'bundle_path=$AAXVAL_PARAM_AAXPLUGIN$\\'\""@,
        "elem: \"\\\"bundle_path=$AAXVAL_PARAM_AAXPLUGIN$\\\"\""@,
        Seq::empty(),
        second@,
    );
}

/// The status of a result is the text under its key, and what follows from reading it is what
/// follows from that text.
pub proof fn statuses_are_found_under_their_key(
    content: &str,
    path: &str,
    result: Result<String, String>,
)
    requires
        call_ensures(aax_validator_result_status, (content, path), result),
    ensures
        json_text(content@, "result_status"@) matches Ok(Some(status)) ==> (result matches Ok(text)
            && text@ == status),
        json_text(content@, "result_status"@) matches Ok(None) ==> (result matches Err(message)
            && message@ == "AAX validator result did not include result_status: "@ + path@),
        json_text(content@, "result_status"@) matches Err(error) ==> (result matches Err(message)
            && message@ == "failed to parse AAX validator result "@ + path@ + ": "@ + error),
{
}

/// A log is shown up to sixty-four kibibytes: a shorter one whole, and a longer one up to the last
/// character that begins within them.
pub proof fn long_logs_are_cut_between_characters(content: &str, cut: Option<usize>, i: int)
    requires
        call_ensures(log_cut, (content,), cut),
        vstd::utf8::encode_utf8(content@).len() <= usize::MAX,
    ensures
        cut is None <==> vstd::utf8::encode_utf8(content@).len() <= 64 * 1024,
        cut matches Some(at) ==> {
            &&& at <= 64 * 1024
            &&& vstd::utf8::is_char_boundary(vstd::utf8::encode_utf8(content@), at as int)
            &&& at < i <= 64 * 1024 ==> !vstd::utf8::is_char_boundary(
                vstd::utf8::encode_utf8(content@),
                i,
            )
        },
{
}

} // verus!
