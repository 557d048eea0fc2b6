//! Tests of the context builder and the template renderer.

use rust_nix_templater::context::{build_context, ctx_lookup};
use rust_nix_templater::error::Error;
use rust_nix_templater::options::{Options, RustToolchainChannel};
use rust_nix_templater::render::render_template;

fn named(name: &str) -> Options {
    let mut o = Options::default();
    o.package_name = Some(String::from(name));
    o
}

#[test]
fn plain_text_passes_through() {
    let ctx = build_context(&named("demo"));
    let out = render_template("no placeholders here", &ctx).unwrap();
    assert_eq!(out, "no placeholders here");
}

#[test]
fn name_substituted() {
    let ctx = build_context(&named("demo"));
    let out = render_template("pkg = {{name}};", &ctx).unwrap();
    assert_eq!(out, "pkg = demo;");
}

#[test]
fn several_placeholders_substituted() {
    let mut o = named("demo");
    o.package_license = Some(String::from("mit"));
    let ctx = build_context(&o);
    let out = render_template("{{name}}/{{license}}/{{name}}", &ctx).unwrap();
    assert_eq!(out, "demo/mit/demo");
}

#[test]
fn executable_defaults_to_package_name() {
    let ctx = build_context(&named("demo"));
    let out = render_template("{{executable}}", &ctx).unwrap();
    assert_eq!(out, "demo");
}

#[test]
fn executable_override_wins() {
    let mut o = named("demo");
    o.package_executable = Some(String::from("demo-cli"));
    let ctx = build_context(&o);
    let out = render_template("{{executable}}", &ctx).unwrap();
    assert_eq!(out, "demo-cli");
}

#[test]
fn systems_joined_with_spaces() {
    let mut o = named("demo");
    o.package_systems = Some(vec![
        String::from("x86_64-linux"),
        String::from("x86_64-darwin"),
    ]);
    let ctx = build_context(&o);
    let out = render_template("[{{systems}}]", &ctx).unwrap();
    assert_eq!(out, "[x86_64-linux x86_64-darwin]");
}

#[test]
fn toolchain_channel_in_context() {
    let mut o = named("demo");
    o.rust_toolchain_channel = RustToolchainChannel::Nightly;
    let ctx = build_context(&o);
    assert_eq!(ctx_lookup(&ctx, "toolchain"), Some(String::from("nightly")));
}

#[test]
fn toolchain_absent_with_pin_file() {
    let mut o = named("demo");
    o.rust_toolchain_file = true;
    let ctx = build_context(&o);
    assert_eq!(ctx_lookup(&ctx, "toolchain"), None);
    // recognized-absent: renders empty rather than failing
    let out = render_template("<{{toolchain}}>", &ctx).unwrap();
    assert_eq!(out, "<>");
}

#[test]
fn absent_recognized_key_renders_empty() {
    let ctx = build_context(&named("demo"));
    let out = render_template("x{{license}}y", &ctx).unwrap();
    assert_eq!(out, "xy");
}

#[test]
fn unknown_key_is_template_error() {
    let ctx = build_context(&named("demo"));
    match render_template("{{bogus}}", &ctx) {
        Err(Error::Template(k)) => assert_eq!(k, "bogus"),
        other => panic!("expected a template error, got {:?}", other),
    }
}

#[test]
fn unterminated_placeholder_is_template_error() {
    let ctx = build_context(&named("demo"));
    assert!(matches!(
        render_template("broken {{name", &ctx),
        Err(Error::Template(_))
    ));
}

#[test]
fn block_included_when_key_bound() {
    let mut o = named("demo");
    o.cachix_name = Some(String::from("mycache"));
    let ctx = build_context(&o);
    let out =
        render_template("a{{#cachixName}}cache: {{cachixName}};{{/cachixName}}b", &ctx).unwrap();
    assert_eq!(out, "acache: mycache;b");
}

#[test]
fn block_omitted_when_key_absent() {
    let ctx = build_context(&named("demo"));
    let out =
        render_template("a{{#cachixName}}cache: {{cachixName}};{{/cachixName}}b", &ctx).unwrap();
    assert_eq!(out, "ab");
}

#[test]
fn with_cachix() {
    let mut o = named("test");
    o.cachix_name = Some(String::from("test"));
    o.cachix_public_key = Some(String::from("test-key"));
    let ctx = build_context(&o);
    assert_eq!(ctx_lookup(&ctx, "cachixName"), Some(String::from("test")));
    assert_eq!(ctx_lookup(&ctx, "cachixKey"), Some(String::from("test-key")));
}

#[test]
fn cachix_key_without_name_not_bound() {
    let mut o = named("demo");
    o.cachix_public_key = Some(String::from("stray"));
    let ctx = build_context(&o);
    assert_eq!(ctx_lookup(&ctx, "cachixName"), None);
    assert_eq!(ctx_lookup(&ctx, "cachixKey"), None);
}

#[test]
fn desktop_keys_only_for_binary_with_flag() {
    let mut o = named("demo");
    o.make_desktop_file = true;
    o.package_xdg_desktop_name = Some(String::from("Demo"));
    let ctx = build_context(&o);
    assert_eq!(ctx_lookup(&ctx, "desktopName"), Some(String::from("Demo")));

    let mut lib = named("demo");
    lib.make_desktop_file = true;
    lib.package_lib = true;
    lib.package_xdg_desktop_name = Some(String::from("Demo"));
    let ctx = build_context(&lib);
    assert_eq!(ctx_lookup(&ctx, "desktopName"), None);
}

#[test]
fn unterminated_block_is_template_error() {
    let mut o = named("demo");
    o.cachix_name = Some(String::from("c"));
    let ctx = build_context(&o);
    assert!(matches!(
        render_template("{{#cachixName}}never closed", &ctx),
        Err(Error::Template(_))
    ));
}
