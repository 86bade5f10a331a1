use apmm::manifest::ApmmConfig;
use apmm::templates::generate_boot_completed_sh;
use apmm::templates::generate_customize_sh;
use apmm::templates::generate_index_html;
use apmm::templates::generate_module_prop;
use apmm::templates::generate_post_fs_data_sh;
use apmm::templates::generate_post_mount_sh;
use apmm::templates::generate_readme_md;
use apmm::templates::generate_sepolicy_rule;
use apmm::templates::generate_service_sh;
use apmm::templates::generate_system_prop;
use apmm::templates::generate_uninstall_sh;
use apmm::templates::generate_update_binary;

#[test]
fn fresh_manifest_round_trips_through_the_parser() {
    let text = generate_module_prop("mymod", "Alice", 202501010101);
    let c = ApmmConfig::from_content(&text).unwrap();
    assert_eq!(c.id, "mymod");
    assert_eq!(c.name, "mymod");
    assert_eq!(c.description, "APMM (Android Patch Module Manager)");
    assert_eq!(c.version, "v0.1.0");
    assert_eq!(c.version_code, 202501010101);
    assert_eq!(c.author, "Alice");
    assert_eq!(c.license, "MIT");
    // re-serializing the scalar fields reproduces the same values
    let again = generate_module_prop(&c.id, &c.author, c.version_code);
    assert_eq!(again, text);
}

#[test]
fn fresh_manifest_carries_the_example_pipeline() {
    let text = generate_module_prop("m", "a", 1);
    let c = ApmmConfig::from_content(&text).unwrap();
    assert_eq!(c.build_config.prebuild_steps.len(), 2);
    assert_eq!(c.build_config.prebuild_steps[0].name, "step1");
    assert_eq!(c.build_config.postbuild_steps.len(), 2);
    assert_eq!(c.build_config.system_requires, vec!["apmm>=0.3.0"]);
    assert_eq!(c.build_config.build_backend, "apmm");
}

#[test]
fn module_prop_splices_its_arguments() {
    let text = generate_module_prop("widget", "Bob", 42);
    assert!(text.starts_with("id = \"widget\"\nname = \"widget\"\n"));
    assert!(text.contains("versionCode = 42\n"));
    assert!(text.contains("author = \"Bob\"\n"));
    assert!(text.contains("license = \"MIT\"\n"));
}

#[test]
fn scripts_name_the_module() {
    assert!(generate_customize_sh("widget").contains("Module: widget"));
    assert!(generate_post_fs_data_sh("widget").contains("widget"));
    assert!(generate_uninstall_sh("widget").contains("/data/adb/modules/widget/uninstall.log"));
    assert!(generate_readme_md("widget", "Bob").starts_with("# widget"));
    assert!(generate_index_html("widget").contains("widget"));
}

#[test]
fn fixed_templates_have_their_known_shapes() {
    assert!(generate_service_sh().starts_with("#!/system/bin/sh\n"));
    assert!(generate_boot_completed_sh().starts_with("#!/system/bin/sh\n"));
    assert!(generate_post_mount_sh().starts_with("#!/system/bin/sh\n"));
    assert!(generate_system_prop().starts_with("# System properties"));
    assert!(generate_sepolicy_rule().starts_with("# SELinux policy rules"));
    assert!(generate_update_binary().starts_with("#!/sbin/sh\n"));
    assert!(generate_index_html("m").starts_with("<!DOCTYPE html>"));
}

#[test]
fn fresh_manifest_is_byte_exact() {
    let text = generate_module_prop("mymod", "Alice", 202501010101);
    assert_eq!(text, "id = \"mymod\"\nname = \"mymod\"\ndescription = \"APMM (Android Patch Module Manager)\"\nversion = \"v0.1.0\"\nversionCode = 202501010101\nauthor = \"Alice\"\nlicense = \"MIT\"\n# updateJson = \"\"\n\n[script]\n# hello = \"echo 'world'\"\n\n[build]\n# 全局build配置\n[build.module]\n# extra = [\"Path/to/extra/file1\", \"Path/to/extra/file2\"]\nexclude = [\"src\", \"rust\", \".*\", \"uv.lock\", \"dist\", \"build\"]\n\n[build.src]\n# extra = [\"src/extra1\", \"src/extra2\"]\nexclude = [\"src\", \"rust\", \".*\", \"uv.lock\", \"dist\", \"build\"]\n\n[[build.prebuild]]\nstep1 = \"echo 'Prebuild step 1: Initializing APMM'\"\n[[build.prebuild]]\nstep2 = \"echo 'Prebuild step 2: Checking dependencies'\"\n\n[[build.build]]\n# 留空以使用apmm默认打包 如果允许完全自定义\n\n[[build.postbuild]]\nstep1 = \"echo 'Postbuild step 1: cleaning up APMM build'\"\n[[build.postbuild]]\nstep2 = \"echo 'Postbuild step 2: Finalizing APMM build'\"\n\n[build.system]\nrequires = [\"apmm>=0.3.0\"]\nbuild-backend = \"apmm\"\n\n[github]\n# repo = \"\"\n# path = \".\" # 这个很重要，表示模块是在仓库根目录下\n# branch = \"main\"\n# proxy-provider = \"https://api.akams.cn/github\"\n");
}
