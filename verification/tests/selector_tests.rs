//! Tests of the file-set selector.

use rust_nix_templater::fileset::{select_files, write_path, FileEntry, TemplateId};
use rust_nix_templater::options::Options;

fn paths(entries: &[FileEntry]) -> Vec<&'static str> {
    entries.iter().map(|e| e.path).collect()
}

#[test]
fn simple() {
    let o = Options::default();
    let files = select_files(&o);
    let ps = paths(&files);
    for base in ["flake.nix", "shell.nix", "gitignore", ".envrc", "default.nix", "compat.nix"] {
        assert!(ps.contains(&base), "missing {}", base);
    }
}

#[test]
fn selection_is_idempotent() {
    let mut o = Options::default();
    o.github_ci = true;
    o.cachix_name = Some(String::from("c"));
    let a = select_files(&o);
    let b = select_files(&o);
    assert_eq!(a.len(), b.len());
    for (x, y) in a.iter().zip(b.iter()) {
        assert_eq!(x.template, y.template);
        assert_eq!(x.path, y.path);
        assert_eq!(x.rendered, y.rendered);
    }
}

#[test]
fn disable_build_excludes_build_descriptors() {
    let mut o = Options::default();
    o.disable_build = true;
    let ps = paths(&select_files(&o));
    assert!(!ps.contains(&"default.nix"));
    assert!(!ps.contains(&"compat.nix"));
    assert!(ps.contains(&"flake.nix"));
}

#[test]
fn with_github_ci() {
    let mut o = Options::default();
    o.github_ci = true;
    let files = select_files(&o);
    let ps = paths(&files);
    assert_eq!(
        ps.iter().filter(|p| **p == ".github/workflows/nix.yml").count(),
        1
    );
    assert!(!ps.contains(&".gitlab-ci.yml"));
}

#[test]
fn with_gitlab_ci() {
    let mut o = Options::default();
    o.gitlab_ci = true;
    let ps = paths(&select_files(&o));
    assert!(ps.contains(&".gitlab-ci.yml"));
    assert!(!ps.contains(&".github/workflows/nix.yml"));
}

#[test]
fn both_ci_providers_once_each() {
    let mut o = Options::default();
    o.github_ci = true;
    o.gitlab_ci = true;
    let ps = paths(&select_files(&o));
    assert_eq!(ps.iter().filter(|p| **p == ".github/workflows/nix.yml").count(), 1);
    assert_eq!(ps.iter().filter(|p| **p == ".gitlab-ci.yml").count(), 1);
}

#[test]
fn desktop_fragment_needs_flag_and_binary() {
    let mut o = Options::default();
    o.make_desktop_file = true;
    let ps = paths(&select_files(&o));
    assert!(ps.contains(&"desktop.nix"));

    let mut lib = Options::default();
    lib.make_desktop_file = true;
    lib.package_lib = true;
    let ps = paths(&select_files(&lib));
    assert!(!ps.contains(&"desktop.nix"));

    let plain = Options::default();
    let ps = paths(&select_files(&plain));
    assert!(!ps.contains(&"desktop.nix"));
}

#[test]
fn no_desktop_template_for_library_requesting_desktop() {
    let mut o = Options::default();
    o.make_desktop_file = true;
    o.package_lib = true;
    for e in select_files(&o) {
        assert!(e.template != TemplateId::DesktopFragment);
    }
}

#[test]
fn no_duplicate_destinations_in_any_combination() {
    for bits in 0..32u32 {
        let mut o = Options::default();
        o.disable_build = bits & 1 != 0;
        o.github_ci = bits & 2 != 0;
        o.gitlab_ci = bits & 4 != 0;
        o.make_desktop_file = bits & 8 != 0;
        o.package_lib = bits & 16 != 0;
        let ps = paths(&select_files(&o));
        for i in 0..ps.len() {
            for j in i + 1..ps.len() {
                assert_ne!(ps[i], ps[j]);
            }
        }
    }
}

#[test]
fn ignore_file_relocated_to_dotfile_on_write() {
    assert_eq!(write_path("gitignore"), ".gitignore");
    assert_eq!(write_path("shell.nix"), "shell.nix");
    assert_eq!(write_path(".envrc"), ".envrc");
}

#[test]
fn ci_files_are_rendered_base_files_copied() {
    let mut o = Options::default();
    o.github_ci = true;
    for e in select_files(&o) {
        match e.template {
            TemplateId::GithubCi | TemplateId::Flake => assert!(e.rendered),
            TemplateId::Shell | TemplateId::Gitignore | TemplateId::Envrc => {
                assert!(!e.rendered)
            }
            _ => {}
        }
    }
}
