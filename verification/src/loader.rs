//! The environment loader: takes in the loaded environment and decides how
//! the run goes on.

use crate::database::{enter_database, to_database};
use crate::delegate::{run_delegate, to_delegate};
use crate::environment::{credentials_of, resolve_credentials, EnvironmentMap};
use crate::keys::Variant;
use crate::outcome::{Fatal, FatalView, Outcome, OutcomeView};
use crate::protocol::{Event, EventView, Step, StepView};
use crate::state::{end, finish, Pipeline, PipelineView};
use vstd::prelude::*;

verus! {

/// How the run goes on with a loaded environment. The minimal variant goes
/// straight to the delegate script. The database variant draws the
/// credentials first and fails where one of them is missing.
pub open spec fn after_load(variant: Variant, env: Map<Seq<char>, Seq<char>>) -> (
    PipelineView,
    StepView,
) {
    if variant.spec_has_database() {
        match credentials_of(env) {
            Ok(credentials) => to_database(variant, credentials),
            Err(fatal) => finish(variant, None, OutcomeView::Failed(fatal)),
        }
    } else {
        to_delegate(variant, None)
    }
}

/// What the loader makes of an event.
///
/// - The file could not be loaded: fail with the reason.
/// - It was loaded: go on as [`after_load`] says.
/// - Anything else does not answer what was asked.
pub open spec fn load_step(variant: Variant, event: EventView) -> (PipelineView, StepView) {
    match event {
        EventView::Failed(reason) => finish(
            variant,
            None,
            OutcomeView::Failed(FatalView::EnvLoad(reason)),
        ),
        EventView::Loaded(env) => after_load(variant, env),
        _ => finish(variant, None, OutcomeView::Failed(FatalView::OutOfSequence)),
    }
}

/// Decides how the run goes on with a loaded environment.
pub fn continue_with(variant: Variant, env: &EnvironmentMap) -> (next: (Pipeline, Step))
    ensures
        (next.0@, next.1@) == after_load(variant, env@),
{
    if variant.has_database() {
        match resolve_credentials(env) {
            Ok(credentials) => enter_database(variant, credentials),
            Err(fatal) => end(variant, None, Outcome::Failed(fatal)),
        }
    } else {
        run_delegate(variant, None)
    }
}

/// Takes the loader one event further, as [`load_step`] says.
pub fn load_environment(variant: Variant, event: Event) -> (next: (Pipeline, Step))
    ensures
        (next.0@, next.1@) == load_step(variant, event@),
{
    match event {
        Event::Failed(reason) => end(variant, None, Outcome::Failed(Fatal::EnvLoad(reason))),
        Event::Loaded(env) => continue_with(variant, &env),
        _ => end(variant, None, Outcome::Failed(Fatal::OutOfSequence)),
    }
}

} // verus!
