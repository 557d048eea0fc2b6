//! The file-set selector: the ordered, duplicate-free list of outputs that a
//! given option set produces.

use vstd::prelude::*;

use crate::options::Options;
use crate::text::str_eq;

verus! {

/// Identifies a template known to the scaffold.
#[derive(Clone, Copy, Debug, PartialEq, Eq, Structural)]
pub enum TemplateId {
    /// The flake descriptor.
    Flake,
    /// The shell/development environment descriptor.
    Shell,
    /// The ignore rules, relocated to dotfile form on write.
    Gitignore,
    /// The environment-loader hook.
    Envrc,
    /// The default build descriptor.
    DefaultNix,
    /// The compatibility build descriptor.
    Compat,
    /// The GitHub CI workflow.
    GithubCi,
    /// The GitLab CI pipeline.
    GitlabCi,
    /// The desktop-entry fragment.
    DesktopFragment,
}

/// One selected output: which template, the relative destination path, and
/// whether the body is rendered through the substitution context (or copied
/// plainly).
#[derive(Clone, Copy, Debug)]
pub struct FileEntry {
    /// The template to emit.
    pub template: TemplateId,
    /// Destination path relative to the output directory.
    pub path: &'static str,
    /// Whether the body goes through the renderer.
    pub rendered: bool,
}

impl View for FileEntry {
    type V = (TemplateId, Seq<char>, bool);

    open spec fn view(&self) -> (TemplateId, Seq<char>, bool) {
        (self.template, self.path@, self.rendered)
    }
}

/// The views of a sequence of selected outputs.
pub open spec fn entries_view(s: Seq<FileEntry>) -> Seq<(TemplateId, Seq<char>, bool)> {
    s.map_values(|e: FileEntry| e@)
}

/// The file set that an option set produces: the base files always; the
/// build descriptors unless builds are disabled; one CI file per enabled
/// provider; the desktop fragment only for a desktop entry on a non-library
/// package.
pub open spec fn file_set_spec(o: Options) -> Seq<(TemplateId, Seq<char>, bool)> {
    seq![
        (TemplateId::Flake, "flake.nix"@, true),
        (TemplateId::Shell, "shell.nix"@, false),
        (TemplateId::Gitignore, "gitignore"@, false),
        (TemplateId::Envrc, ".envrc"@, false),
    ] + (if !o.disable_build {
        seq![
            (TemplateId::DefaultNix, "default.nix"@, false),
            (TemplateId::Compat, "compat.nix"@, false),
        ]
    } else {
        Seq::<(TemplateId, Seq<char>, bool)>::empty()
    }) + (if o.github_ci {
        seq![(TemplateId::GithubCi, ".github/workflows/nix.yml"@, true)]
    } else {
        Seq::<(TemplateId, Seq<char>, bool)>::empty()
    }) + (if o.gitlab_ci {
        seq![(TemplateId::GitlabCi, ".gitlab-ci.yml"@, true)]
    } else {
        Seq::<(TemplateId, Seq<char>, bool)>::empty()
    }) + (if o.make_desktop_file && !o.package_lib {
        seq![(TemplateId::DesktopFragment, "desktop.nix"@, true)]
    } else {
        Seq::<(TemplateId, Seq<char>, bool)>::empty()
    })
}

/// Select the outputs for an option set.
pub fn select_files(o: &Options) -> (r: Vec<FileEntry>)
    ensures
        entries_view(r@) == file_set_spec(*o),
{
    let mut r: Vec<FileEntry> = Vec::new();
    r.push(FileEntry { template: TemplateId::Flake, path: "flake.nix", rendered: true });
    r.push(FileEntry { template: TemplateId::Shell, path: "shell.nix", rendered: false });
    r.push(FileEntry { template: TemplateId::Gitignore, path: "gitignore", rendered: false });
    r.push(FileEntry { template: TemplateId::Envrc, path: ".envrc", rendered: false });
    if !o.disable_build {
        r.push(FileEntry { template: TemplateId::DefaultNix, path: "default.nix", rendered: false });
        r.push(FileEntry { template: TemplateId::Compat, path: "compat.nix", rendered: false });
    }
    if o.github_ci {
        r.push(
            FileEntry {
                template: TemplateId::GithubCi,
                path: ".github/workflows/nix.yml",
                rendered: true,
            },
        );
    }
    if o.gitlab_ci {
        r.push(FileEntry { template: TemplateId::GitlabCi, path: ".gitlab-ci.yml", rendered: true });
    }
    if o.make_desktop_file && !o.package_lib {
        r.push(
            FileEntry { template: TemplateId::DesktopFragment, path: "desktop.nix", rendered: true },
        );
    }
    proof {
        assert(entries_view(r@) =~= file_set_spec(*o));
    }
    r
}

/// The destination a file is written to: the ignore-file logical name is
/// relocated to its dotfile form; every other path is kept.
pub open spec fn write_path_spec(p: Seq<char>) -> Seq<char> {
    if p == "gitignore"@ {
        ".gitignore"@
    } else {
        p
    }
}

/// The destination to write a selected path to.
pub fn write_path(path: &str) -> (r: String)
    ensures
        r@ == write_path_spec(path@),
{
    if str_eq(path, "gitignore") {
        String::from_str(".gitignore")
    } else {
        String::from_str(path)
    }
}

/// The base files stand at the head of every selection, whatever the
/// option set, and the build descriptors follow whenever builds are
/// enabled.
pub proof fn lemma_base_files_selected(o: Options)
    ensures
        file_set_spec(o).len() >= 4,
        file_set_spec(o)[0] == (TemplateId::Flake, "flake.nix"@, true),
        file_set_spec(o)[1] == (TemplateId::Shell, "shell.nix"@, false),
        file_set_spec(o)[2] == (TemplateId::Gitignore, "gitignore"@, false),
        file_set_spec(o)[3] == (TemplateId::Envrc, ".envrc"@, false),
        !o.disable_build ==> file_set_spec(o).len() >= 6 && file_set_spec(o)[4] == (
            TemplateId::DefaultNix,
            "default.nix"@,
            false,
        ) && file_set_spec(o)[5] == (TemplateId::Compat, "compat.nix"@, false),
{
}

/// Selection is a function of the options alone: equal option sets select
/// identical, identically-ordered file lists. Together with the contract of
/// `select_files`, running the selector twice yields the same list.
pub proof fn lemma_selection_deterministic(o1: Options, o2: Options)
    requires
        o1 == o2,
    ensures
        file_set_spec(o1) == file_set_spec(o2),
{
}

/// No two selected outputs write the same destination path.
pub proof fn lemma_no_duplicate_paths(o: Options)
    ensures
        forall|i: int, j: int|
            0 <= i < j < file_set_spec(o).len() ==> file_set_spec(o)[i].1 != file_set_spec(o)[j].1,
{
    reveal_strlit("flake.nix");
    reveal_strlit("shell.nix");
    reveal_strlit("gitignore");
    reveal_strlit(".envrc");
    reveal_strlit("default.nix");
    reveal_strlit("compat.nix");
    reveal_strlit(".github/workflows/nix.yml");
    reveal_strlit(".gitlab-ci.yml");
    reveal_strlit("desktop.nix");
    // Equal-length path pairs differ in a character; the rest differ in
    // length already.
    assert("flake.nix"@[0] != "shell.nix"@[0]);
    assert("flake.nix"@[0] != "gitignore"@[0]);
    assert("shell.nix"@[0] != "gitignore"@[0]);
    assert("default.nix"@[2] != "desktop.nix"@[2]);
    let s = file_set_spec(o);
    assert forall|i: int, j: int| 0 <= i < j < s.len() implies s[i].1 != s[j].1 by {
        if s[i].1 == s[j].1 {
            assert(s[i].1.len() == s[j].1.len());
            assert(forall|k: int| 0 <= k < s[i].1.len() ==> s[i].1[k] == s[j].1[k]);
        }
    }
}

/// A desktop entry requested on a library package selects no desktop
/// fragment.
pub proof fn lemma_no_desktop_file_for_library(o: Options)
    requires
        o.package_lib,
    ensures
        forall|i: int|
            0 <= i < file_set_spec(o).len() ==> file_set_spec(o)[i].0
                != TemplateId::DesktopFragment,
{
}

} // verus!
