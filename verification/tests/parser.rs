use apmm::manifest::ApmmConfig;

#[test]
fn empty_document_yields_defaults() {
    let c = ApmmConfig::from_content("").unwrap();
    assert_eq!(c.id, "unknown");
    assert_eq!(c.name, "Unknown");
    assert_eq!(c.description, "");
    assert_eq!(c.version, "0.1.0");
    assert_eq!(c.version_code, 1);
    assert_eq!(c.author, "Unknown");
    assert_eq!(c.license, "MIT");
    assert_eq!(c.build_config.build_backend, "apmm");
    assert!(c.build_config.prebuild_steps.is_empty());
    assert!(c.build_config.build_steps.is_empty());
    assert!(c.build_config.postbuild_steps.is_empty());
    assert!(c.build_config.system_requires.is_empty());
}

#[test]
fn binary_garbage_parses_without_error() {
    let garbage = "\u{0}\u{1}\u{2}== = ]][[ ## \u{7f}\nid\n=\n[[[\n]]]";
    let c = ApmmConfig::from_content(garbage).unwrap();
    assert_eq!(c.id, "unknown");
    assert_eq!(c.version_code, 1);
}

#[test]
fn comments_only_yields_defaults() {
    let c = ApmmConfig::from_content("# one\n  # two\n\n#three").unwrap();
    assert_eq!(c.id, "unknown");
    assert_eq!(c.license, "MIT");
}

#[test]
fn scalar_fields_are_read() {
    let text = "id = \"mymod\"\nname = \"My Module\"\ndescription = \"does things\"\nversion = \"v1.2.3\"\nversionCode = 42\nauthor = \"Alice\"\nlicense = \"GPL\"\n";
    let c = ApmmConfig::from_content(text).unwrap();
    assert_eq!(c.id, "mymod");
    assert_eq!(c.name, "My Module");
    assert_eq!(c.description, "does things");
    assert_eq!(c.version, "v1.2.3");
    assert_eq!(c.version_code, 42);
    assert_eq!(c.author, "Alice");
    assert_eq!(c.license, "GPL");
}

#[test]
fn one_quote_pair_is_stripped() {
    let c = ApmmConfig::from_content("id = \"\"doubly\"\"").unwrap();
    assert_eq!(c.id, "\"doubly\"");
    let c = ApmmConfig::from_content("id = bare").unwrap();
    assert_eq!(c.id, "bare");
}

#[test]
fn last_occurrence_of_a_key_wins() {
    let c = ApmmConfig::from_content("id = \"a\"\nid = \"b\"").unwrap();
    assert_eq!(c.id, "b");
}

#[test]
fn unrecognized_keys_are_ignored() {
    let c = ApmmConfig::from_content("flavor = \"mint\"\nid = \"x\"").unwrap();
    assert_eq!(c.id, "x");
}

#[test]
fn malformed_version_code_falls_back() {
    let c = ApmmConfig::from_content("versionCode = not-a-number").unwrap();
    assert_eq!(c.version_code, 1);
    let c = ApmmConfig::from_content("versionCode = 99999999999999999999").unwrap();
    assert_eq!(c.version_code, 1);
    let c = ApmmConfig::from_content("versionCode = -7").unwrap();
    assert_eq!(c.version_code, -7);
}

#[test]
fn keys_in_foreign_sections_do_not_touch_scalars() {
    let c = ApmmConfig::from_content("[other]\nid = \"hidden\"").unwrap();
    assert_eq!(c.id, "unknown");
}

#[test]
fn array_sections_accumulate_steps_in_order() {
    let text = "[[build.prebuild]]\nstep1 = \"echo one\"\n[[build.prebuild]]\nstep2 = \"echo two\"\n";
    let c = ApmmConfig::from_content(text).unwrap();
    assert_eq!(c.build_config.prebuild_steps.len(), 2);
    assert_eq!(c.build_config.prebuild_steps[0].name, "step1");
    assert_eq!(c.build_config.prebuild_steps[0].command, "echo one");
    assert_eq!(c.build_config.prebuild_steps[1].name, "step2");
    assert_eq!(c.build_config.prebuild_steps[1].command, "echo two");
}

#[test]
fn several_lines_in_one_array_section_all_count() {
    let text = "[[build.build]]\na = \"1\"\nb = \"2\"\nc = \"3\"";
    let c = ApmmConfig::from_content(text).unwrap();
    assert_eq!(c.build_config.build_steps.len(), 3);
    assert_eq!(c.build_config.build_steps[2].name, "c");
}

#[test]
fn unknown_array_sections_contribute_no_steps() {
    let text = "[[build.something_else]]\nstep1 = \"echo nope\"\n[[build.prebuild]]\nreal = \"echo yes\"";
    let c = ApmmConfig::from_content(text).unwrap();
    assert_eq!(c.build_config.prebuild_steps.len(), 1);
    assert_eq!(c.build_config.prebuild_steps[0].name, "real");
    assert!(c.build_config.build_steps.is_empty());
    assert!(c.build_config.postbuild_steps.is_empty());
}

#[test]
fn requires_list_parses_in_order() {
    let text = "[build.system]\nrequires = [\"a\", \"b\", \"c\"]";
    let c = ApmmConfig::from_content(text).unwrap();
    assert_eq!(c.build_config.system_requires, vec!["a", "b", "c"]);
}

#[test]
fn requires_without_brackets_is_ignored() {
    let text = "[build.system]\nrequires = notabracket";
    let c = ApmmConfig::from_content(text).unwrap();
    assert!(c.build_config.system_requires.is_empty());
}

#[test]
fn build_backend_is_read() {
    let text = "[build.system]\nbuild-backend = \"hammer\"";
    let c = ApmmConfig::from_content(text).unwrap();
    assert_eq!(c.build_config.build_backend, "hammer");
}

#[test]
fn scalar_section_closes_array_section() {
    let text = "[[build.prebuild]]\na = \"1\"\n[build.system]\nb = \"2\"";
    let c = ApmmConfig::from_content(text).unwrap();
    assert_eq!(c.build_config.prebuild_steps.len(), 1);
}

#[test]
fn whitespace_around_lines_is_trimmed() {
    let c = ApmmConfig::from_content("   id   =   \"padded\"   ").unwrap();
    assert_eq!(c.id, "padded");
}

#[test]
fn extract_module_id_reads_first_id_line() {
    assert_eq!(
        apmm::manifest::extract_module_id("name = \"n\"\nid = \"mod_a\"\nid = \"mod_b\""),
        Ok("mod_a".to_string())
    );
    assert_eq!(
        apmm::manifest::extract_module_id("  id = \"spaced\"  "),
        Ok("spaced".to_string())
    );
    assert_eq!(
        apmm::manifest::extract_module_id("noid = 1"),
        Err("Module ID not found in module.prop".to_string())
    );
    assert_eq!(
        apmm::manifest::extract_module_id("id =\"tight\""),
        Err("Module ID not found in module.prop".to_string())
    );
}

#[test]
fn carriage_returns_are_trimmed_like_whitespace() {
    let c = apmm::manifest::ApmmConfig::from_content("id = \"x\"\r\nname = \"y\"\r\n").unwrap();
    assert_eq!(c.id, "x");
    assert_eq!(c.name, "y");
}

#[test]
fn unicode_whitespace_is_trimmed() {
    let c = apmm::manifest::ApmmConfig::from_content("\u{a0}id = \"x\"\u{3000}").unwrap();
    assert_eq!(c.id, "x");
}
