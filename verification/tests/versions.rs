use moddedboost::patches::GameVersion;
use moddedboost::versions::{
    needs_games_list, title_id_matches, Findings, FullBoostVersions, DIGITAL_TITLE_ID,
    DISC_TITLE_ID,
};

fn findings(a: bool, b: bool, c: bool, d: bool) -> Findings {
    Findings { digital_title: a, digital_executable: b, disc_title: c, listed_disc_title: d }
}

#[test]
fn digital_release_needs_parameter_file_and_executable() {
    assert!(FullBoostVersions::from_findings(findings(true, true, false, false)).NPJB00512);
    assert!(!FullBoostVersions::from_findings(findings(true, false, false, false)).NPJB00512);
    assert!(!FullBoostVersions::from_findings(findings(false, true, false, false)).NPJB00512);
}

#[test]
fn disc_release_is_found_on_disc_or_through_the_list() {
    assert!(FullBoostVersions::from_findings(findings(false, false, true, false)).BLJS10250);
    assert!(FullBoostVersions::from_findings(findings(false, false, false, true)).BLJS10250);
    let none = FullBoostVersions::from_findings(findings(true, false, false, false));
    assert_eq!(none, FullBoostVersions { BLJS10250: false, NPJB00512: false });
    assert!(!none.any());
    assert!(FullBoostVersions::from_findings(findings(true, true, true, true)).any());
    assert!(needs_games_list(false));
    assert!(!needs_games_list(true));
}

#[test]
fn title_id_is_sought_in_the_first_line() {
    assert!(title_id_matches(Some("TITLE_ID=NPJB00512"), DIGITAL_TITLE_ID));
    assert!(title_id_matches(Some("BLJS10250"), DISC_TITLE_ID));
    assert!(!title_id_matches(Some("npjb00512"), DIGITAL_TITLE_ID));
    assert!(!title_id_matches(Some(""), DIGITAL_TITLE_ID));
    assert!(!title_id_matches(None, DIGITAL_TITLE_ID));
    assert!(title_id_matches(Some(""), ""));
}

#[test]
fn both_shapes_of_a_version_entry_say_whether_it_is_on() {
    assert!(GameVersion::Bool(true).is_enabled());
    assert!(!GameVersion::Bool(false).is_enabled());
    assert!(GameVersion::Struct { Enabled: true }.is_enabled());
    assert!(!GameVersion::Struct { Enabled: false }.is_enabled());
    assert_ne!(GameVersion::Bool(true), GameVersion::Struct { Enabled: true });
}
