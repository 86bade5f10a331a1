use apmm::clock::format_timestamp;
use apmm::clock::format_utc_fields;
use apmm::clock::generate_version_code;
use apmm::clock::generate_version_code_from_timestamp;
use apmm::clock::version_code_from_fields;
use apmm::upgrade::upgrade_manifest_content;
use apmm::upgrade::upgrade_version_string;
use apmm::validate::increment_version;
use apmm::validate::validate_version;
use apmm::validate::VersionPart;

#[test]
fn upgrade_increments_patch_without_checkout_info() {
    assert_eq!(upgrade_version_string("v1.2.3", 0), Ok("v1.2.4".to_string()));
}

#[test]
fn upgrade_takes_commit_count_when_present() {
    assert_eq!(upgrade_version_string("v1.2.3", 57), Ok("v1.2.57".to_string()));
}

#[test]
fn upgrade_keeps_prefix_only_when_present() {
    assert_eq!(upgrade_version_string("1.2.3", 0), Ok("1.2.4".to_string()));
}

#[test]
fn upgrade_drops_components_past_the_third() {
    assert_eq!(upgrade_version_string("1.2.3.9", 0), Ok("1.2.4".to_string()));
}

#[test]
fn upgrade_rejects_short_versions() {
    assert_eq!(
        upgrade_version_string("1.2", 0),
        Err("Invalid version format, expected X.Y.Z".to_string())
    );
    assert_eq!(
        upgrade_version_string("x.2.3", 0),
        Err("Invalid major version number".to_string())
    );
    assert_eq!(
        upgrade_version_string("1.x.3", 0),
        Err("Invalid minor version number".to_string())
    );
    assert_eq!(
        upgrade_version_string("1.2.x", 0),
        Err("Invalid patch version number".to_string())
    );
}

#[test]
fn manifest_upgrade_replaces_first_version_and_code() {
    let text = "# head\nversion = \"v1.2.3\"\nversionCode = 1\nversion = \"v9.9.9\"\nother = 1\n";
    let out = upgrade_manifest_content(text, 202501010101, 0).unwrap();
    assert_eq!(
        out,
        "# head\nversion = \"v1.2.4\"\nversionCode = 202501010101\nversion = \"v9.9.9\"\nother = 1\n"
    );
}

#[test]
fn manifest_upgrade_passes_unrecognized_lines_through_verbatim() {
    let text = "  indented line  \n# comment\n\nplain\n";
    let out = upgrade_manifest_content(text, 7, 0).unwrap();
    assert_eq!(out, text);
}

#[test]
fn manifest_upgrade_fails_on_bad_version_before_writing() {
    let text = "version = \"1.2\"\nversionCode = 1\n";
    assert_eq!(
        upgrade_manifest_content(text, 7, 0),
        Err("Invalid version format, expected X.Y.Z".to_string())
    );
}

#[test]
fn manifest_upgrade_uses_commit_count() {
    let text = "version = \"v0.1.0\"\n";
    let out = upgrade_manifest_content(text, 7, 12).unwrap();
    assert_eq!(out, "version = \"v0.1.12\"\n");
}

#[test]
fn version_code_formula_is_exact() {
    assert_eq!(version_code_from_fields(2025, 6, 17, 0, 0), 202506170000);
    assert_eq!(version_code_from_fields(2025, 12, 31, 23, 59), 202512312359);
}

#[test]
fn version_code_from_epoch_timestamp() {
    assert_eq!(generate_version_code_from_timestamp(0), 197001010000);
    assert_eq!(generate_version_code_from_timestamp(86400), 197001020000);
}

#[test]
fn fresh_version_code_has_twelve_digits_and_grows() {
    let now = generate_version_code();
    assert!(now >= 100_000_000_000);
    assert!(now < 1_000_000_000_000);
    // strictly greater than any code derived from an earlier wall-clock time
    assert!(now > 202501010101);
}

#[test]
fn timestamps_format_as_utc() {
    assert_eq!(format_timestamp(0), "1970-01-01 00:00:00 UTC");
    assert_eq!(format_utc_fields(2025, 6, 17, 9, 5, 59), "2025-06-17 09:05:59 UTC");
    assert_eq!(format_timestamp(i64::MAX), "Invalid timestamp");
}

#[test]
fn current_year_is_recent() {
    assert!(apmm::clock::current_year() >= 2025);
}

#[test]
fn validate_version_accepts_two_to_four_parts() {
    assert_eq!(validate_version("v1.0"), Ok(()));
    assert_eq!(validate_version("1.0.0"), Ok(()));
    assert_eq!(validate_version("1.0.0.0"), Ok(()));
    assert_eq!(validate_version(""), Err("Version cannot be empty".to_string()));
    assert_eq!(
        validate_version("1"),
        Err("Version must be in format X.Y or X.Y.Z or X.Y.Z.W".to_string())
    );
    assert_eq!(
        validate_version("1.2.3.4.5"),
        Err("Version must be in format X.Y or X.Y.Z or X.Y.Z.W".to_string())
    );
    assert_eq!(
        validate_version("1.two"),
        Err("Version parts must be numbers".to_string())
    );
}

#[test]
fn increment_version_bumps_the_chosen_part() {
    assert_eq!(increment_version("1.2.3", VersionPart::Major), Ok("2.0.0".to_string()));
    assert_eq!(increment_version("1.2.3", VersionPart::Minor), Ok("1.3.0".to_string()));
    assert_eq!(increment_version("1.2.3", VersionPart::Patch), Ok("1.2.4".to_string()));
    assert_eq!(increment_version("v1.2", VersionPart::Patch), Ok("v1.2.1".to_string()));
    assert_eq!(increment_version("1.2.3.4", VersionPart::Patch), Ok("1.2.4.4".to_string()));
    assert_eq!(
        increment_version("nope", VersionPart::Patch),
        Err("Version must be in format X.Y or X.Y.Z or X.Y.Z.W".to_string())
    );
}
