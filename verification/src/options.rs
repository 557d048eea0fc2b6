//! The option model: the validated, immutable record of user intent that
//! drives scaffolding, and the toolchain-channel enumeration.

use vstd::prelude::*;

use crate::error::Error;
use crate::text::str_eq;

verus! {

/// Release channel of the toolchain that the generated configuration pins.
#[derive(Clone, Copy, Debug, PartialEq, Eq, Structural)]
pub enum RustToolchainChannel {
    Stable,
    Beta,
    Nightly,
}

/// Error of `parse_channel`: the text named no known channel.
#[derive(Clone, Copy, Debug, PartialEq, Eq, Structural)]
pub struct ChannelParseError;

/// The textual name of a toolchain channel.
pub open spec fn channel_name(c: RustToolchainChannel) -> Seq<char> {
    match c {
        RustToolchainChannel::Stable => "stable"@,
        RustToolchainChannel::Beta => "beta"@,
        RustToolchainChannel::Nightly => "nightly"@,
    }
}

impl RustToolchainChannel {
    /// The channel's name as text.
    pub fn as_str(&self) -> (r: &'static str)
        ensures
            r@ == channel_name(*self),
    {
        match self {
            RustToolchainChannel::Stable => "stable",
            RustToolchainChannel::Beta => "beta",
            RustToolchainChannel::Nightly => "nightly",
        }
    }
}

impl Default for RustToolchainChannel {
    /// The default channel is stable.
    fn default() -> (r: Self)
        ensures
            r == RustToolchainChannel::Stable,
    {
        RustToolchainChannel::Stable
    }
}

/// Parse a channel name; errs exactly when the text names no channel.
pub fn parse_channel(s: &str) -> (r: Result<RustToolchainChannel, ChannelParseError>)
    ensures
        match r {
            Ok(c) => s@ == channel_name(c),
            Err(_) => s@ != "stable"@ && s@ != "beta"@ && s@ != "nightly"@,
        },
{
    if str_eq(s, "stable") {
        Ok(RustToolchainChannel::Stable)
    } else if str_eq(s, "beta") {
        Ok(RustToolchainChannel::Beta)
    } else if str_eq(s, "nightly") {
        Ok(RustToolchainChannel::Nightly)
    } else {
        Err(ChannelParseError)
    }
}

/// The immutable record of user intent for one scaffolding run.
#[derive(Clone, Debug)]
pub struct Options {
    /// Generate a GitHub Actions workflow file.
    pub github_ci: bool,
    /// Generate a GitLab CI file.
    pub gitlab_ci: bool,
    /// Disable the flake outputs that build (checks, package and app).
    pub disable_build: bool,
    /// Disable the app flake output.
    pub disable_app: bool,
    /// Package only a library: no binary, no desktop entry.
    pub package_lib: bool,
    /// Generate a desktop entry for the package.
    pub make_desktop_file: bool,
    /// Output directory where generated files are put.
    pub out_dir: String,
    /// Name of the package; required when no manifest exists yet.
    pub package_name: Option<String>,
    /// License identifier of the package.
    pub package_license: Option<String>,
    /// Systems the package is supported on.
    pub package_systems: Option<Vec<String>>,
    /// A short, single line description of the package.
    pub package_description: Option<String>,
    /// A longer description of the package.
    pub package_long_description: Option<String>,
    /// Homepage of the package.
    pub package_homepage: Option<String>,
    /// Name of the built executable; defaults to the package name.
    pub package_executable: Option<String>,
    /// Icon to use in the generated desktop entry.
    pub package_icon: Option<String>,
    /// Comment to put in the generated desktop entry.
    pub package_xdg_comment: Option<String>,
    /// Desktop name to put in the generated desktop entry.
    pub package_xdg_desktop_name: Option<String>,
    /// Generic name to put in the generated desktop entry.
    pub package_xdg_generic_name: Option<String>,
    /// Categories to put in the generated desktop entry.
    pub package_xdg_categories: Option<String>,
    /// Name of the binary cache.
    pub cachix_name: Option<String>,
    /// Public key of the binary cache.
    pub cachix_public_key: Option<String>,
    /// Pin the toolchain through an external toolchain file instead of a
    /// channel recorded in the manifest.
    pub rust_toolchain_file: bool,
    /// Toolchain channel to record.
    pub rust_toolchain_channel: RustToolchainChannel,
}

impl Default for Options {
    /// All flags off, all optional fields absent, the current directory as
    /// output, and the stable channel.
    fn default() -> (r: Self)
        ensures
            !r.github_ci,
            !r.gitlab_ci,
            !r.disable_build,
            !r.disable_app,
            !r.package_lib,
            !r.make_desktop_file,
            r.out_dir@ == "."@,
            r.package_name is None,
            r.package_license is None,
            r.package_systems is None,
            r.package_description is None,
            r.package_long_description is None,
            r.package_homepage is None,
            r.package_executable is None,
            r.package_icon is None,
            r.package_xdg_comment is None,
            r.package_xdg_desktop_name is None,
            r.package_xdg_generic_name is None,
            r.package_xdg_categories is None,
            r.cachix_name is None,
            r.cachix_public_key is None,
            !r.rust_toolchain_file,
            r.rust_toolchain_channel == RustToolchainChannel::Stable,
    {
        Options {
            github_ci: false,
            gitlab_ci: false,
            disable_build: false,
            disable_app: false,
            package_lib: false,
            make_desktop_file: false,
            out_dir: String::from_str("."),
            package_name: None,
            package_license: None,
            package_systems: None,
            package_description: None,
            package_long_description: None,
            package_homepage: None,
            package_executable: None,
            package_icon: None,
            package_xdg_comment: None,
            package_xdg_desktop_name: None,
            package_xdg_generic_name: None,
            package_xdg_categories: None,
            cachix_name: None,
            cachix_public_key: None,
            rust_toolchain_file: false,
            rust_toolchain_channel: RustToolchainChannel::Stable,
        }
    }
}

/// Whether the option set admits a run: when no manifest exists yet, a
/// package name must be present.
pub open spec fn options_valid_for(o: Options, has_project: bool) -> bool {
    has_project || o.package_name is Some
}

/// Check the presence invariant; errs with the validation error exactly when
/// no manifest exists and no package name was given.
pub fn validate_options(o: &Options, has_project: bool) -> (r: Result<(), Error>)
    ensures
        r is Ok <==> options_valid_for(*o, has_project),
        r is Err ==> r == Err::<(), Error>(Error::Validation),
{
    if has_project || o.package_name.is_some() {
        Ok(())
    } else {
        Err(Error::Validation)
    }
}

} // verus!
