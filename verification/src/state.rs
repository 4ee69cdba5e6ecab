//! Where a run stands.

use crate::environment::{CredentialsView, DatabaseCredentials};
use crate::keys::Variant;
use crate::outcome::{Notice, Outcome, OutcomeView};
use crate::protocol::{Action, ActionView, Step, StepView};
use vstd::prelude::*;

verus! {

/// Which answer the environment provisioner is waiting for.
#[derive(Clone, Copy, Debug, PartialEq, Eq, Structural)]
pub enum EnvironmentStage {
    /// Does the configuration directory exist?
    ProbingDir,
    /// Has the configuration directory been created?
    CreatingDir,
    /// Does the environment file exist?
    ProbingFile,
    /// Has the environment file been written?
    WritingFile,
}

/// Which answer the database provisioner is waiting for.
#[derive(Clone, Copy, Debug, PartialEq, Eq, Structural)]
pub enum DatabaseStage {
    /// Does the data directory exist?
    ProbingDataDir,
    /// Has the data directory been created?
    CreatingDataDir,
    /// How did the SQL client exit from the schema script?
    RunningInit,
    /// How did the SQL client exit from the seed script?
    RunningSeed,
}

/// Where a run stands.
#[derive(Debug, PartialEq, Eq)]
pub enum Stage {
    /// The environment provisioner is at work.
    Environment(EnvironmentStage),
    /// The environment is being loaded.
    Loading,
    /// The database provisioner is at work, with these credentials.
    Database(DatabaseStage, DatabaseCredentials),
    /// The delegate script is running.
    Delegate,
    /// The run is over. Whatever is reported now, the answer is to exit.
    Finished(Outcome),
}

/// What a [`Stage`] is to the verifier.
pub enum StageView {
    Environment(EnvironmentStage),
    Loading,
    Database(DatabaseStage, CredentialsView),
    Delegate,
    Finished(OutcomeView),
}

impl View for Stage {
    type V = StageView;

    open spec fn view(&self) -> StageView {
        match self {
            Stage::Environment(at) => StageView::Environment(*at),
            Stage::Loading => StageView::Loading,
            Stage::Database(at, credentials) => StageView::Database(*at, credentials@),
            Stage::Delegate => StageView::Delegate,
            Stage::Finished(outcome) => StageView::Finished(outcome@),
        }
    }
}

/// A run of the bootstrap sequence.
#[derive(Debug, PartialEq, Eq)]
pub struct Pipeline {
    pub variant: Variant,
    pub stage: Stage,
}

/// What a [`Pipeline`] is to the verifier.
pub struct PipelineView {
    pub variant: Variant,
    pub stage: StageView,
}

impl View for Pipeline {
    type V = PipelineView;

    open spec fn view(&self) -> PipelineView {
        PipelineView { variant: self.variant, stage: self.stage@ }
    }
}

impl Pipeline {
    /// Whether the run is over.
    pub fn is_finished(&self) -> (over: bool)
        ensures
            over == (self@.stage is Finished),
    {
        match &self.stage {
            Stage::Finished(_) => true,
            _ => false,
        }
    }

    /// How the run ended, once it is over.
    pub fn outcome(&self) -> (ended: Option<Outcome>)
        ensures
            ended is Some <==> self@.stage is Finished,
            ended matches Some(outcome) ==> self@.stage == StageView::Finished(outcome@),
    {
        match &self.stage {
            Stage::Finished(outcome) => Some(outcome.clone()),
            _ => None,
        }
    }
}

/// The run moves to a stage and asks for an action.
pub open spec fn proceed(
    variant: Variant,
    stage: StageView,
    notice: Option<Notice>,
    action: ActionView,
) -> (PipelineView, StepView) {
    (PipelineView { variant, stage }, StepView { notice, action })
}

/// The run ends.
pub open spec fn finish(variant: Variant, notice: Option<Notice>, outcome: OutcomeView) -> (
    PipelineView,
    StepView,
) {
    proceed(variant, StageView::Finished(outcome), notice, ActionView::Exit(outcome))
}

/// Moves a run to a stage and asks for an action.
pub fn go(variant: Variant, stage: Stage, notice: Option<Notice>, action: Action) -> (next: (
    Pipeline,
    Step,
))
    ensures
        (next.0@, next.1@) == proceed(variant, stage@, notice, action@),
{
    (Pipeline { variant, stage }, Step { notice, action })
}

/// Ends a run.
pub fn end(variant: Variant, notice: Option<Notice>, outcome: Outcome) -> (next: (Pipeline, Step))
    ensures
        (next.0@, next.1@) == finish(variant, notice, outcome@),
{
    let again = outcome.clone();
    go(variant, Stage::Finished(outcome), notice, Action::Exit(again))
}

} // verus!
