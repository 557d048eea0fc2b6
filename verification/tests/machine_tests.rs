//! Tests of the option model and the orchestration machine.

use rust_nix_templater::error::Error;
use rust_nix_templater::machine::{
    apply_outcome, next_action, start_run, Action, RunState, Stage,
};
use rust_nix_templater::manifest::to_str;
use rust_nix_templater::options::{parse_channel, validate_options, Options, RustToolchainChannel};
use rust_nix_templater::quote;

#[test]
fn channel_parsing() {
    assert_eq!(parse_channel("stable"), Ok(RustToolchainChannel::Stable));
    assert_eq!(parse_channel("beta"), Ok(RustToolchainChannel::Beta));
    assert_eq!(parse_channel("nightly"), Ok(RustToolchainChannel::Nightly));
    assert!(parse_channel("weekly").is_err());
    assert!(parse_channel("").is_err());
}

#[test]
fn channel_names() {
    assert_eq!(RustToolchainChannel::Stable.as_str(), "stable");
    assert_eq!(RustToolchainChannel::Beta.as_str(), "beta");
    assert_eq!(RustToolchainChannel::Nightly.as_str(), "nightly");
    assert_eq!(RustToolchainChannel::default(), RustToolchainChannel::Stable);
}

#[test]
fn quoting_and_booleans() {
    assert_eq!(quote("mit"), "\"mit\"");
    assert_eq!(quote(""), "\"\"");
    assert_eq!(to_str(true), "true");
    assert_eq!(to_str(false), "false");
}

#[test]
fn validation_requires_name_without_manifest() {
    let o = Options::default();
    assert_eq!(validate_options(&o, false), Err(Error::Validation));
    assert_eq!(validate_options(&o, true), Ok(()));
    let mut named = Options::default();
    named.package_name = Some(String::from("demo"));
    assert_eq!(validate_options(&named, false), Ok(()));
}

#[test]
fn run_refused_without_name_and_manifest() {
    let o = Options::default();
    assert_eq!(start_run(&o, false), Err(Error::Validation));
}

#[test]
fn happy_path_without_manifest_reaches_done() {
    let mut o = Options::default();
    o.package_name = Some(String::from("demo"));
    let mut st = start_run(&o, false).unwrap();
    assert_eq!(next_action(st.clone()), Action::WriteFiles);
    st = apply_outcome(st, true, "");
    assert_eq!(next_action(st.clone()), Action::RunFormatter);
    st = apply_outcome(st, true, "");
    assert_eq!(next_action(st.clone()), Action::RunInitializer);
    st = apply_outcome(st, true, "");
    assert_eq!(next_action(st.clone()), Action::PatchManifest);
    st = apply_outcome(st, true, "");
    assert_eq!(next_action(st.clone()), Action::Finish);
    st = apply_outcome(st, true, "");
    assert_eq!(st.stage, Stage::Done);
}

#[test]
fn happy_path_with_manifest_skips_initializer() {
    let o = Options::default();
    let mut st = start_run(&o, true).unwrap();
    st = apply_outcome(st, true, "");
    st = apply_outcome(st, true, "");
    assert_eq!(next_action(st.clone()), Action::PatchManifest);
    st = apply_outcome(st, true, "");
    st = apply_outcome(st, true, "");
    assert_eq!(st.stage, Stage::Done);
}

#[test]
fn formatter_failure_is_not_fatal() {
    let o = Options::default();
    let mut st = start_run(&o, true).unwrap();
    st = apply_outcome(st, true, "write files");
    assert_eq!(next_action(st.clone()), Action::RunFormatter);
    st = apply_outcome(st, false, "formatter exited nonzero");
    assert_eq!(st.stage, Stage::Formatted);
    st = apply_outcome(st, true, "");
    st = apply_outcome(st, true, "");
    assert_eq!(st.stage, Stage::Done);
}

#[test]
fn initializer_failure_is_fatal() {
    let mut o = Options::default();
    o.package_name = Some(String::from("demo"));
    let mut st = start_run(&o, false).unwrap();
    st = apply_outcome(st, true, "");
    st = apply_outcome(st, true, "");
    assert_eq!(next_action(st.clone()), Action::RunInitializer);
    st = apply_outcome(st, false, "project initializer");
    match &st.stage {
        Stage::Failed(Error::Collaborator(d)) => assert_eq!(d, "project initializer"),
        other => panic!("expected a fatal collaborator error, got {:?}", other),
    }
    match next_action(st) {
        Action::Abort(Error::Collaborator(_)) => {}
        other => panic!("expected abort, got {:?}", other),
    }
}

#[test]
fn write_failure_is_fatal_io() {
    let o = Options::default();
    let st = start_run(&o, true).unwrap();
    let st = apply_outcome(st, false, "write files");
    match &st.stage {
        Stage::Failed(Error::Io(d)) => assert_eq!(d, "write files"),
        other => panic!("expected an I/O failure, got {:?}", other),
    }
}

#[test]
fn terminal_states_absorb() {
    let o = Options::default();
    let mut st = start_run(&o, true).unwrap();
    for _ in 0..10 {
        st = apply_outcome(st, true, "");
    }
    assert_eq!(st.stage, Stage::Done);
    let failed = RunState {
        stage: Stage::Failed(Error::Validation),
        has_project: true,
    };
    let still = apply_outcome(failed.clone(), true, "");
    assert_eq!(still, failed);
}
