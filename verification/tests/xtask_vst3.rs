use wrac_plugin::wrac_xtask::vst3::{normalize_vst3_cid, parse_vst3_validator_cids};

#[test]
fn parses_vst3_validator_cids_from_logged_output() {
    let output = r#"
* Scanning classes...
  Class Info 0:
    name = WRAC Gain
    cid = 822011CA37EC5CEF92D7EC7E67207195
  Class Info 1:
    name = Companion Controller
    cid = ffff664c-b963-53e6-87cc-2a7ceb29674b
"#;

    assert_eq!(
        parse_vst3_validator_cids(output),
        vec![
            "822011CA37EC5CEF92D7EC7E67207195".to_string(),
            "FFFF664CB96353E687CC2A7CEB29674B".to_string(),
        ]
    );
}

#[test]
fn hyphens_and_case_make_no_difference() {
    assert_eq!(
        normalize_vst3_cid("ffff664c-b963-53e6-87cc-2a7ceb29674b"),
        normalize_vst3_cid("FFFF664CB96353E687CC2A7CEB29674B")
    );
}

#[test]
fn letter_case_makes_no_difference_to_an_id() {
    let mixed = "Ab-Cd{0f}";
    assert_eq!(normalize_vst3_cid(mixed), "ABCD0F");
    assert_eq!(normalize_vst3_cid(&mixed.to_lowercase()), normalize_vst3_cid(mixed));
    assert_eq!(normalize_vst3_cid(&mixed.to_uppercase()), normalize_vst3_cid(mixed));
}

#[test]
fn two_outputs_show_the_ids_of_both() {
    let first = "name = Gain\ncid = 822011CA37EC5CEF92D7EC7E67207195";
    let second = "cid = ffff664c-b963-53e6-87cc-2a7ceb29674b\ndone";
    let mut both = parse_vst3_validator_cids(first);
    both.extend(parse_vst3_validator_cids(second));
    assert_eq!(both.len(), 2);
    assert_eq!(parse_vst3_validator_cids(&format!("{first}\n{second}")), both);
}
