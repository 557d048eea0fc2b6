//! Tests of the manifest patcher.

use rust_nix_templater::manifest::patch_manifest;
use rust_nix_templater::options::{Options, RustToolchainChannel};

fn count_lines_starting_with(text: &str, prefix: &str) -> usize {
    text.lines().filter(|l| l.starts_with(prefix)).count()
}

#[test]
fn empty_manifest_gets_workspace_scope() {
    let o = Options::default();
    let out = patch_manifest("", &o);
    assert!(out.contains("[workspace.metadata.tool]"));
    assert!(!out.contains("[package.metadata.tool]"));
}

#[test]
fn manifest_with_identity_gets_package_scope() {
    let o = Options::default();
    let out = patch_manifest("name = \"demo\"\n", &o);
    assert!(out.contains("[package.metadata.tool]"));
    assert!(!out.contains("[workspace.metadata.tool]"));
}

#[test]
fn app_and_build_default_to_true() {
    let o = Options::default();
    let out = patch_manifest("", &o);
    assert!(out.contains("app = true"));
    assert!(out.contains("build = true"));
}

#[test]
fn disable_build_turns_both_off() {
    let mut o = Options::default();
    o.disable_build = true;
    let out = patch_manifest("", &o);
    assert!(out.contains("app = false"));
    assert!(out.contains("build = false"));
}

#[test]
fn disable_app_keeps_build() {
    let mut o = Options::default();
    o.disable_app = true;
    let out = patch_manifest("", &o);
    assert!(out.contains("app = false"));
    assert!(out.contains("build = true"));
}

#[test]
fn license_inserted_right_after_identity_line() {
    let mut o = Options::default();
    o.package_license = Some(String::from("mit"));
    let out = patch_manifest("name = \"demo\"\nversion = \"0.1.0\"\n", &o);
    let lines: Vec<&str> = out.lines().collect();
    assert_eq!(lines[0], "name = \"demo\"");
    assert_eq!(lines[1], "license = \"mit\"");
    assert_eq!(lines[2], "version = \"0.1.0\"");
}

#[test]
fn existing_license_never_duplicated() {
    let mut o = Options::default();
    o.package_license = Some(String::from("apache-2.0"));
    let input = "name = \"demo\"\nlicense = \"mit\"\n";
    let out = patch_manifest(input, &o);
    assert_eq!(count_lines_starting_with(&out, "license = "), 1);
    assert!(out.contains("license = \"mit\""));
    assert!(!out.contains("apache-2.0"));
}

#[test]
fn license_anywhere_suppresses_insertion() {
    let mut o = Options::default();
    o.package_license = Some(String::from("mit"));
    let input = "name = \"demo\"\n[other]\nlicense = \"gpl\"\n";
    let out = patch_manifest(input, &o);
    assert_eq!(count_lines_starting_with(&out, "license = "), 1);
}

#[test]
fn description_inserted_after_fresh_license() {
    let mut o = Options::default();
    o.package_license = Some(String::from("mit"));
    o.package_description = Some(String::from("a demo"));
    let out = patch_manifest("name = \"demo\"\n", &o);
    let lines: Vec<&str> = out.lines().collect();
    assert_eq!(lines[0], "name = \"demo\"");
    assert_eq!(lines[1], "license = \"mit\"");
    assert_eq!(lines[2], "description = \"a demo\"");
}

#[test]
fn no_identity_line_means_no_insertion() {
    let mut o = Options::default();
    o.package_license = Some(String::from("mit"));
    o.package_description = Some(String::from("a demo"));
    let out = patch_manifest("[workspace]\nmembers = []\n", &o);
    assert_eq!(count_lines_starting_with(&out, "license = "), 0);
    assert_eq!(count_lines_starting_with(&out, "description = "), 0);
    assert!(out.contains("[workspace.metadata.tool]"));
}

#[test]
fn cache_section_with_name_and_key() {
    let mut o = Options::default();
    o.cachix_name = Some(String::from("mycache"));
    o.cachix_public_key = Some(String::from("mycache.example.org-1:abc"));
    let out = patch_manifest("name = \"demo\"\n", &o);
    assert!(out.contains("[package.metadata.tool.cache]"));
    assert!(out.contains("name = \"mycache\""));
    assert!(out.contains("key = \"mycache.example.org-1:abc\""));
}

#[test]
fn cachix_no_key() {
    let mut o = Options::default();
    o.cachix_name = Some(String::from("mycache"));
    let out = patch_manifest("name = \"demo\"\n", &o);
    assert!(out.contains("[package.metadata.tool.cache]"));
    assert!(out.contains("name = \"mycache\""));
    assert_eq!(count_lines_starting_with(&out, "key = "), 0);
    assert!(!out.contains("key = \""));
}

#[test]
fn no_cache_section_without_name() {
    let mut o = Options::default();
    o.cachix_public_key = Some(String::from("stray-key"));
    let out = patch_manifest("name = \"demo\"\n", &o);
    assert!(!out.contains(".cache]"));
    assert!(!out.contains("stray-key"));
}

#[test]
fn desktop_section_on_binary_package() {
    let mut o = Options::default();
    o.make_desktop_file = true;
    o.package_xdg_desktop_name = Some(String::from("Demo App"));
    o.package_xdg_generic_name = Some(String::from("Demonstrator"));
    o.package_icon = Some(String::from("assets/icon.png"));
    let out = patch_manifest("name = \"demo\"\n", &o);
    assert!(out.contains("[package.metadata.tool.desktop]"));
    assert!(out.contains("name = \"Demo App\""));
    assert!(out.contains("genericName = \"Demonstrator\""));
    assert!(out.contains("icon = \"assets/icon.png\""));
}

#[test]
fn with_desktop_file() {
    let mut o = Options::default();
    o.make_desktop_file = true;
    o.package_xdg_desktop_name = Some(String::from("name"));
    let out = patch_manifest("name = \"test\"\n", &o);
    assert!(out.contains("[package.metadata.tool.desktop]"));
}

#[test]
fn desktop_section_omitted_for_library() {
    let mut o = Options::default();
    o.make_desktop_file = true;
    o.package_lib = true;
    o.package_xdg_desktop_name = Some(String::from("Demo App"));
    o.package_xdg_comment = Some(String::from("does things"));
    let out = patch_manifest("name = \"demo\"\n", &o);
    assert!(!out.contains(".desktop]"));
    assert!(!out.contains("Demo App"));
}

#[test]
fn toolchain_recorded_when_not_default() {
    let mut o = Options::default();
    o.rust_toolchain_channel = RustToolchainChannel::Beta;
    let out = patch_manifest("name = \"demo\"\n", &o);
    assert!(out.contains("toolchain = \"beta\""));
}

#[test]
fn toolchain_omitted_for_default_channel() {
    let o = Options::default();
    let out = patch_manifest("name = \"demo\"\n", &o);
    assert!(!out.contains("toolchain = "));
}

#[test]
fn toolchain_omitted_with_toolchain_file() {
    let mut o = Options::default();
    o.rust_toolchain_file = true;
    o.rust_toolchain_channel = RustToolchainChannel::Nightly;
    let out = patch_manifest("name = \"demo\"\n", &o);
    assert!(!out.contains("toolchain = "));
}

#[test]
fn long_description_recorded() {
    let mut o = Options::default();
    o.package_long_description = Some(String::from("a much longer text"));
    let out = patch_manifest("name = \"demo\"\n", &o);
    assert!(out.contains("longDescription = \"a much longer text\""));
}

#[test]
fn unrelated_lines_preserved_in_order() {
    let o = Options::default();
    let input = "# header\nname = \"demo\"\nversion = \"1\"\n\n[dependencies]\nfoo = \"2\"\n";
    let out = patch_manifest(input, &o);
    assert!(out.starts_with(input));
}

#[test]
fn end_to_end_fresh_project_manifest() {
    // A run on a fresh directory: the initializer produced no manifest
    // content yet, the patcher works on empty text in workspace scope.
    let mut o = Options::default();
    o.package_name = Some(String::from("demo"));
    let out = patch_manifest("", &o);
    assert_eq!(count_lines_starting_with(&out, "license = "), 0);
    assert!(out.contains("[workspace.metadata.tool]"));
    assert!(out.contains("app = true"));
}
