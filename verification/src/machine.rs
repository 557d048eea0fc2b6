//! The scaffold writer's orchestration machine: the decisions of a run as a
//! pure function from state and step outcome to next state and action. The
//! caller performs the actions (writing files, invoking the formatter and
//! the initializer, patching the manifest) and reports each outcome back.

use vstd::prelude::*;

use crate::error::Error;
use crate::options::{options_valid_for, Options};

verus! {

/// Where a run stands.
#[derive(Clone, Debug, PartialEq, Eq)]
pub enum Stage {
    /// Manifest presence is known; nothing written yet.
    Start,
    /// Every selected file has been rendered and persisted.
    FilesWritten,
    /// The formatter has run (its outcome is cosmetic either way).
    Formatted,
    /// The initializer has created the project (runs only when no manifest
    /// existed).
    ProjectInitialized,
    /// The manifest has been patched and persisted.
    ManifestPatched,
    /// The run finished successfully.
    Done,
    /// The run aborted with this error; nothing is rolled back.
    Failed(Error),
}

/// A stage stripped of error payload, for stating how runs progress.
#[derive(Clone, Copy, Debug, PartialEq, Eq, Structural)]
pub enum StageKind {
    Start,
    FilesWritten,
    Formatted,
    ProjectInitialized,
    ManifestPatched,
    Done,
    Failed,
}

/// The kind of a stage.
pub open spec fn kind_of(stage: Stage) -> StageKind {
    match stage {
        Stage::Start => StageKind::Start,
        Stage::FilesWritten => StageKind::FilesWritten,
        Stage::Formatted => StageKind::Formatted,
        Stage::ProjectInitialized => StageKind::ProjectInitialized,
        Stage::ManifestPatched => StageKind::ManifestPatched,
        Stage::Done => StageKind::Done,
        Stage::Failed(_) => StageKind::Failed,
    }
}

/// The full machine state of a run.
#[derive(Clone, Debug, PartialEq, Eq)]
pub struct RunState {
    /// The stage reached.
    pub stage: Stage,
    /// Whether a manifest existed before the run started.
    pub has_project: bool,
}

/// What the caller must do next. The initializer action covers the
/// project-creation call and the best-effort lockfile generation after it;
/// only the creation call's failure counts as the action failing.
#[derive(Clone, Debug, PartialEq, Eq)]
pub enum Action {
    /// Render every selected file and persist it.
    WriteFiles,
    /// Invoke the external formatter; failure is cosmetic.
    RunFormatter,
    /// Invoke the external project initializer; failure is fatal.
    RunInitializer,
    /// Patch the manifest and persist it.
    PatchManifest,
    /// Terminal: the run succeeded.
    Finish,
    /// Terminal: the run failed with this error.
    Abort(Error),
}

/// The state a run starts in, or the validation error when no manifest
/// exists and no package name was given.
pub open spec fn start_run_spec(o: Options, has_project: bool) -> Result<RunState, Error> {
    if options_valid_for(o, has_project) {
        Ok(RunState { stage: Stage::Start, has_project })
    } else {
        Err(Error::Validation)
    }
}

/// Begin a run: fails, before anything is written, exactly when no manifest
/// exists and no package name was given.
pub fn start_run(o: &Options, has_project: bool) -> (r: Result<RunState, Error>)
    ensures
        r == start_run_spec(*o, has_project),
{
    if has_project || o.package_name.is_some() {
        Ok(RunState { stage: Stage::Start, has_project })
    } else {
        Err(Error::Validation)
    }
}

/// The action owed in a state.
pub open spec fn next_action_spec(st: RunState) -> Action {
    match st.stage {
        Stage::Start => Action::WriteFiles,
        Stage::FilesWritten => Action::RunFormatter,
        Stage::Formatted => if st.has_project {
            Action::PatchManifest
        } else {
            Action::RunInitializer
        },
        Stage::ProjectInitialized => Action::PatchManifest,
        Stage::ManifestPatched => Action::Finish,
        Stage::Done => Action::Finish,
        Stage::Failed(e) => Action::Abort(e),
    }
}

/// What the caller must do next in this state.
pub fn next_action(st: RunState) -> (r: Action)
    ensures
        r == next_action_spec(st),
{
    match st.stage {
        Stage::Start => Action::WriteFiles,
        Stage::FilesWritten => Action::RunFormatter,
        Stage::Formatted => if st.has_project {
            Action::PatchManifest
        } else {
            Action::RunInitializer
        },
        Stage::ProjectInitialized => Action::PatchManifest,
        Stage::ManifestPatched => Action::Finish,
        Stage::Done => Action::Finish,
        Stage::Failed(e) => Action::Abort(e),
    }
}

/// How stages progress when the owed action reports `ok`: file writing and
/// manifest patching are fatal on failure, the initializer is fatal on
/// failure, the formatter never is, and terminal stages absorb.
pub open spec fn advance_kind(k: StageKind, has_project: bool, ok: bool) -> StageKind {
    match k {
        StageKind::Start => if ok {
            StageKind::FilesWritten
        } else {
            StageKind::Failed
        },
        StageKind::FilesWritten => StageKind::Formatted,
        StageKind::Formatted => if !ok {
            StageKind::Failed
        } else if has_project {
            StageKind::ManifestPatched
        } else {
            StageKind::ProjectInitialized
        },
        StageKind::ProjectInitialized => if ok {
            StageKind::ManifestPatched
        } else {
            StageKind::Failed
        },
        StageKind::ManifestPatched => StageKind::Done,
        StageKind::Done => StageKind::Done,
        StageKind::Failed => StageKind::Failed,
    }
}

/// Move the run forward after the owed action reported `ok`; `detail` names
/// the failed operation for the error report. File writing and manifest
/// patching fail with the I/O error, the initializer with the collaborator
/// error; the formatter's outcome never aborts the run; terminal states
/// absorb.
pub fn apply_outcome(st: RunState, ok: bool, detail: &str) -> (r: RunState)
    ensures
        r.has_project == st.has_project,
        kind_of(r.stage) == advance_kind(kind_of(st.stage), st.has_project, ok),
        match st.stage {
            Stage::Start => !ok ==> (r.stage matches Stage::Failed(Error::Io(d)) && d@ == detail@),
            Stage::Formatted => !ok ==> if st.has_project {
                r.stage matches Stage::Failed(Error::Io(d)) && d@ == detail@
            } else {
                r.stage matches Stage::Failed(Error::Collaborator(d)) && d@ == detail@
            },
            Stage::ProjectInitialized => !ok ==> (r.stage matches Stage::Failed(Error::Io(d)) && d@
                == detail@),
            Stage::Done => r == st,
            Stage::Failed(_) => r == st,
            _ => true,
        },
{
    let has_project = st.has_project;
    match st.stage {
        Stage::Start => if ok {
            RunState { stage: Stage::FilesWritten, has_project }
        } else {
            RunState { stage: Stage::Failed(Error::Io(String::from_str(detail))), has_project }
        },
        Stage::FilesWritten => RunState { stage: Stage::Formatted, has_project },
        Stage::Formatted => if !ok && has_project {
            RunState { stage: Stage::Failed(Error::Io(String::from_str(detail))), has_project }
        } else if !ok {
            RunState {
                stage: Stage::Failed(Error::Collaborator(String::from_str(detail))),
                has_project,
            }
        } else if has_project {
            RunState { stage: Stage::ManifestPatched, has_project }
        } else {
            RunState { stage: Stage::ProjectInitialized, has_project }
        },
        Stage::ProjectInitialized => if ok {
            RunState { stage: Stage::ManifestPatched, has_project }
        } else {
            RunState { stage: Stage::Failed(Error::Io(String::from_str(detail))), has_project }
        },
        Stage::ManifestPatched => RunState { stage: Stage::Done, has_project },
        Stage::Done => st,
        Stage::Failed(_) => st,
    }
}

/// With a package name given, a run on a directory without a manifest
/// starts: validation cannot refuse it.
pub proof fn lemma_named_run_starts(o: Options)
    requires
        o.package_name is Some,
    ensures
        start_run_spec(o, false) is Ok,
{
}

/// The formatter's outcome is never fatal: from the files-written stage the
/// run always moves on to the formatted stage, success or not.
pub proof fn lemma_formatter_never_fatal(has_project: bool, ok: bool)
    ensures
        advance_kind(StageKind::FilesWritten, has_project, ok) == StageKind::Formatted,
{
}

/// The initializer's failure is fatal: with no pre-existing manifest, a
/// failed step out of the formatted stage aborts the run.
pub proof fn lemma_initializer_failure_fatal()
    ensures
        advance_kind(StageKind::Formatted, false, false) == StageKind::Failed,
{
}

/// A run whose every step succeeds reaches the done stage, with or without
/// a pre-existing manifest.
pub proof fn lemma_successful_run_reaches_done(has_project: bool)
    ensures
        advance_kind(
            advance_kind(
                advance_kind(
                    advance_kind(
                        advance_kind(StageKind::Start, has_project, true),
                        has_project,
                        true,
                    ),
                    has_project,
                    true,
                ),
                has_project,
                true,
            ),
            has_project,
            true,
        ) == StageKind::Done,
{
}

} // verus!
