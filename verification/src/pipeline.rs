//! The whole sequence: environment provisioner, loader, database provisioner
//! where the variant has one, delegate invoker.
//!
//! The sequence only ever moves forward. There is no retry and no way back:
//! whatever goes wrong ends the run.

use crate::database::{database_step, provision_database};
use crate::delegate::{delegate_step, invoke_script};
use crate::keys::Variant;
use crate::loader::{load_environment, load_step};
use crate::paths::Location;
use crate::protocol::{Action, ActionView, Event, EventView, Step, StepView};
use crate::provisioner::{ensure_environment_file, environment_file_step};
use crate::state::{end, finish, EnvironmentStage, Pipeline, PipelineView, Stage, StageView};
use vstd::prelude::*;

verus! {

/// A run that has not been answered yet: it waits to hear whether the
/// configuration directory exists.
pub open spec fn initial(variant: Variant) -> PipelineView {
    PipelineView { variant, stage: StageView::Environment(EnvironmentStage::ProbingDir) }
}

/// The first action of every run.
pub open spec fn first_step() -> StepView {
    StepView { notice: None, action: ActionView::Probe(Location::ConfigDir) }
}

/// The transition function: the stage and the answer that follow when a run
/// learns of an event. Each stage leaves the event to its component; a run
/// that is over stays as it is and answers with its exit again.
pub open spec fn step(p: PipelineView, event: EventView) -> (PipelineView, StepView) {
    match p.stage {
        StageView::Environment(at) => environment_file_step(p.variant, at, event),
        StageView::Loading => load_step(p.variant, event),
        StageView::Database(at, credentials) => database_step(p.variant, at, credentials, event),
        StageView::Delegate => delegate_step(p.variant, event),
        StageView::Finished(outcome) => finish(p.variant, None, outcome),
    }
}

impl Pipeline {
    /// Starts a run. The first action is to probe the configuration
    /// directory.
    pub fn start(variant: Variant) -> (begun: (Pipeline, Step))
        ensures
            begun.0@ == initial(variant),
            begun.1@ == first_step(),
    {
        (
            Pipeline { variant, stage: Stage::Environment(EnvironmentStage::ProbingDir) },
            Step { notice: None, action: Action::Probe(Location::ConfigDir) },
        )
    }

    /// Takes in what came of the pending action and answers with the next
    /// one, as [`step`] says.
    pub fn advance(self, event: Event) -> (next: (Pipeline, Step))
        ensures
            (next.0@, next.1@) == step(self@, event@),
    {
        let variant = self.variant;
        match self.stage {
            Stage::Environment(at) => ensure_environment_file(variant, at, event),
            Stage::Loading => load_environment(variant, event),
            Stage::Database(at, credentials) => provision_database(
                variant,
                at,
                credentials,
                event,
            ),
            Stage::Delegate => invoke_script(variant, event),
            Stage::Finished(outcome) => end(variant, None, outcome),
        }
    }
}

} // verus!
