use apmm::validate::is_safe_filename;
use apmm::validate::is_valid_author_name;
use apmm::validate::is_valid_module_description;
use apmm::validate::is_valid_module_id;
use apmm::validate::is_valid_module_name;
use apmm::validate::is_valid_version_code;
use apmm::validate::is_valid_version_string;
use apmm::validate::sanitize_module_id;
use apmm::validate::validate_author_name;
use apmm::validate::validate_module_id;
use apmm::validate::validate_module_props;

#[test]
fn loose_module_id_rules() {
    assert_eq!(validate_module_id("good_id-2"), Ok(()));
    assert_eq!(
        validate_module_id(""),
        Err("Module ID cannot be empty".to_string())
    );
    let long = "a".repeat(51);
    assert_eq!(
        validate_module_id(&long),
        Err("Module ID cannot be longer than 50 characters".to_string())
    );
    assert_eq!(
        validate_module_id("has space"),
        Err("Module ID can only contain letters, numbers, underscores, and hyphens".to_string())
    );
    assert_eq!(
        validate_module_id("9lives"),
        Err("Module ID cannot start with a number".to_string())
    );
}

#[test]
fn author_name_rules() {
    assert_eq!(validate_author_name("Alice"), Ok(()));
    assert_eq!(
        validate_author_name(""),
        Err("Author name cannot be empty".to_string())
    );
    let long = "x".repeat(101);
    assert_eq!(
        validate_author_name(&long),
        Err("Author name cannot be longer than 100 characters".to_string())
    );
}

#[test]
fn sanitize_cleans_input() {
    assert_eq!(sanitize_module_id("My Module"), "my_module");
    assert_eq!(sanitize_module_id("1abc"), "_1abc");
    assert_eq!(sanitize_module_id("hello.world"), "hello_world");
    assert_eq!(sanitize_module_id("!!!"), "my_module");
    assert_eq!(sanitize_module_id(""), "my_module");
    assert_eq!(sanitize_module_id("--lead"), "lead");
    let long = "a".repeat(80);
    assert_eq!(sanitize_module_id(&long).len(), 50);
}

#[test]
fn strict_module_id_accepts_documented_examples() {
    assert!(is_valid_module_id("a_module"));
    assert!(is_valid_module_id("a.module"));
    assert!(is_valid_module_id("module-101"));
    assert!(is_valid_module_id("MyModule"));
    assert!(is_valid_module_id("test_module_v2"));
}

#[test]
fn strict_module_id_rejects_documented_examples() {
    assert!(!is_valid_module_id("a module"));
    assert!(!is_valid_module_id("1_module"));
    assert!(!is_valid_module_id("-a-module"));
    assert!(!is_valid_module_id(".hidden"));
    assert!(!is_valid_module_id("_private"));
    assert!(!is_valid_module_id("module@"));
    assert!(!is_valid_module_id(""));
    assert!(!is_valid_module_id("a..b"));
    assert!(!is_valid_module_id("a--b"));
    assert!(!is_valid_module_id("ends."));
    assert!(!is_valid_module_id("android"));
    assert!(!is_valid_module_id("System"));
    let long = format!("a{}", "b".repeat(64));
    assert!(!is_valid_module_id(&long));
}

#[test]
fn safe_filename_matches_strict_id() {
    assert!(is_safe_filename("a_module"));
    assert!(!is_safe_filename("a module"));
}

#[test]
fn name_description_author_version_checks() {
    assert!(is_valid_module_name("A Name"));
    assert!(!is_valid_module_name(""));
    assert!(!is_valid_module_name("two\nlines"));
    assert!(!is_valid_module_name("   "));
    assert!(!is_valid_module_name(&"n".repeat(101)));

    assert!(is_valid_module_description(""));
    assert!(is_valid_module_description("fine"));
    assert!(!is_valid_module_description("a\nb"));
    assert!(!is_valid_module_description(&"d".repeat(501)));

    assert!(is_valid_author_name("Bob"));
    assert!(!is_valid_author_name(""));
    assert!(!is_valid_author_name(" \t"));

    assert!(is_valid_version_string("v1.0.0"));
    assert!(is_valid_version_string("1.0"));
    assert!(!is_valid_version_string(""));
    assert!(!is_valid_version_string("1.0\n"));
    assert!(!is_valid_version_string("  "));
    assert!(!is_valid_version_string(&"9".repeat(33)));

    assert!(is_valid_version_code(1));
    assert!(is_valid_version_code(i32::MAX));
    assert!(!is_valid_version_code(0));
    assert!(!is_valid_version_code(-5));
}

#[test]
fn combined_props_validation_reports_first_failure() {
    assert_eq!(
        validate_module_props("mod_a", "Mod A", "v1.0.0", 1, "Alice", "desc"),
        Ok(())
    );
    let e = validate_module_props("1bad", "Mod A", "v1.0.0", 1, "Alice", "").unwrap_err();
    assert!(e.contains("'1bad'"));
    let e = validate_module_props("mod_a", "", "v1.0.0", 1, "Alice", "").unwrap_err();
    assert!(e.contains("''"));
    let e = validate_module_props("mod_a", "Mod A", "v1.0.0", 0, "Alice", "").unwrap_err();
    assert!(e.contains("'0'"));
    let e = validate_module_props("mod_a", "Mod A", "v1.0.0", -3, "Alice", "").unwrap_err();
    assert!(e.contains("'-3'"));
    assert!(validate_module_props("mod_a", "Mod A", "v1.0.0", 1, "", "").is_err());
    assert!(validate_module_props("mod_a", "Mod A", "v1.0.0", 1, "Alice", "x\ny").is_err());
}
