//! The environment provisioner: makes sure that the configuration directory
//! and the environment file exist.
//!
//! A file that is there is never touched. A file that is missing is generated
//! with a placeholder for every declared variable, and the run then stops: it
//! must never go on with placeholder values.

use crate::keys::{declared_keys, Variant};
use crate::outcome::{Fatal, FatalView, Notice, Outcome, OutcomeView};
use crate::paths::Location;
use crate::protocol::{Action, ActionView, Event, EventView, Step, StepView};
use crate::state::{
    end, finish, go, proceed, EnvironmentStage, Pipeline, PipelineView, Stage, StageView,
};
use crate::template::{env_file_text, template};
use vstd::prelude::*;

verus! {

/// The directory is there: ask whether the environment file is.
pub open spec fn to_file_probe(variant: Variant) -> (PipelineView, StepView) {
    proceed(
        variant,
        StageView::Environment(EnvironmentStage::ProbingFile),
        None,
        ActionView::Probe(Location::EnvFile),
    )
}

/// What the provisioner makes of an event.
///
/// - The directory is missing: create it. Then, or if it was there, look for
///   the file.
/// - The file is there: go on to load it.
/// - The file is missing: write the template; once written, halt.
/// - The operating system refused: fail with its words.
/// - Anything else does not answer what was asked.
pub open spec fn environment_file_step(
    variant: Variant,
    at: EnvironmentStage,
    event: EventView,
) -> (PipelineView, StepView) {
    match (at, event) {
        (_, EventView::Failed(reason)) => finish(
            variant,
            None,
            OutcomeView::Failed(FatalView::Io(reason)),
        ),
        (EnvironmentStage::ProbingDir, EventView::Present(true)) => to_file_probe(variant),
        (EnvironmentStage::ProbingDir, EventView::Present(false)) => proceed(
            variant,
            StageView::Environment(EnvironmentStage::CreatingDir),
            Some(Notice::CreatingConfigDir),
            ActionView::CreateDir(Location::ConfigDir),
        ),
        (EnvironmentStage::CreatingDir, EventView::Done) => to_file_probe(variant),
        (EnvironmentStage::ProbingFile, EventView::Present(true)) => proceed(
            variant,
            StageView::Loading,
            None,
            ActionView::LoadEnv(Location::EnvFile),
        ),
        (EnvironmentStage::ProbingFile, EventView::Present(false)) => proceed(
            variant,
            StageView::Environment(EnvironmentStage::WritingFile),
            Some(Notice::GeneratingEnvFile),
            ActionView::WriteFile(Location::EnvFile, template(declared_keys(variant))),
        ),
        (EnvironmentStage::WritingFile, EventView::Done) => finish(
            variant,
            None,
            OutcomeView::Halted,
        ),
        _ => finish(variant, None, OutcomeView::Failed(FatalView::OutOfSequence)),
    }
}

fn probe_file(variant: Variant) -> (next: (Pipeline, Step))
    ensures
        (next.0@, next.1@) == to_file_probe(variant),
{
    go(
        variant,
        Stage::Environment(EnvironmentStage::ProbingFile),
        None,
        Action::Probe(Location::EnvFile),
    )
}

/// Takes the provisioner one event further, as [`environment_file_step`] says.
pub fn ensure_environment_file(variant: Variant, at: EnvironmentStage, event: Event) -> (next: (
    Pipeline,
    Step,
))
    ensures
        (next.0@, next.1@) == environment_file_step(variant, at, event@),
{
    match event {
        Event::Failed(reason) => end(variant, None, Outcome::Failed(Fatal::Io(reason))),
        Event::Present(found) => match at {
            EnvironmentStage::ProbingDir => {
                if found {
                    probe_file(variant)
                } else {
                    go(
                        variant,
                        Stage::Environment(EnvironmentStage::CreatingDir),
                        Some(Notice::CreatingConfigDir),
                        Action::CreateDir(Location::ConfigDir),
                    )
                }
            },
            EnvironmentStage::ProbingFile => {
                if found {
                    go(variant, Stage::Loading, None, Action::LoadEnv(Location::EnvFile))
                } else {
                    go(
                        variant,
                        Stage::Environment(EnvironmentStage::WritingFile),
                        Some(Notice::GeneratingEnvFile),
                        Action::WriteFile(Location::EnvFile, env_file_text(variant)),
                    )
                }
            },
            _ => end(variant, None, Outcome::Failed(Fatal::OutOfSequence)),
        },
        Event::Done => match at {
            EnvironmentStage::CreatingDir => probe_file(variant),
            EnvironmentStage::WritingFile => end(variant, None, Outcome::Halted),
            _ => end(variant, None, Outcome::Failed(Fatal::OutOfSequence)),
        },
        _ => end(variant, None, Outcome::Failed(Fatal::OutOfSequence)),
    }
}

} // verus!
