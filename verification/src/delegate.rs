//! The delegate invoker: hands over to the script that is the real program.

use crate::command::{Invocation, InvocationView};
use crate::keys::Variant;
use crate::outcome::{Fatal, FatalView, Notice, Outcome, OutcomeView, Program};
use crate::paths::{delegate_script, spec_delegate_script};
use crate::protocol::{Action, ActionView, Event, EventView, Step, StepView};
use crate::state::{end, finish, go, proceed, Pipeline, PipelineView, Stage, StageView};
use vstd::prelude::*;
use vstd::string::StringExecFns;

verus! {

/// The call of the interpreter on the delegate script: the script's path is
/// its only argument.
pub open spec fn delegate_call() -> InvocationView {
    InvocationView {
        program: Program::Python,
        args: seq![spec_delegate_script()],
        env: Seq::empty(),
    }
}

/// Builds the call of the interpreter on the delegate script.
pub fn delegate_command() -> (call: Invocation)
    ensures
        call@ == delegate_call(),
{
    let mut args: Vec<String> = Vec::new();
    args.push(String::from_str(delegate_script()));
    let call = Invocation { program: Program::Python, args, env: Vec::new() };
    proof {
        assert(call@.args =~= delegate_call().args);
        assert(call@.env =~= delegate_call().env);
    }
    call
}

/// All is prepared: run the delegate script.
pub open spec fn to_delegate(variant: Variant, notice: Option<Notice>) -> (
    PipelineView,
    StepView,
) {
    proceed(variant, StageView::Delegate, notice, ActionView::Spawn(delegate_call()))
}

/// Asks for the delegate script to be run.
pub fn run_delegate(variant: Variant, notice: Option<Notice>) -> (next: (Pipeline, Step))
    ensures
        (next.0@, next.1@) == to_delegate(variant, notice),
{
    go(variant, Stage::Delegate, notice, Action::Spawn(delegate_command()))
}

/// What the invoker makes of an event.
///
/// - The interpreter could not be started: fail.
/// - The script ran: say whether it succeeded; the run is complete either
///   way. A script that fails does not fail the run.
/// - Anything else does not answer what was asked.
pub open spec fn delegate_step(variant: Variant, event: EventView) -> (PipelineView, StepView) {
    match event {
        EventView::Failed(reason) => finish(
            variant,
            None,
            OutcomeView::Failed(FatalView::Launch(Program::Python, reason)),
        ),
        EventView::Exited(true) => finish(
            variant,
            Some(Notice::DelegateSucceeded),
            OutcomeView::Completed,
        ),
        EventView::Exited(false) => finish(
            variant,
            Some(Notice::DelegateFailed),
            OutcomeView::Completed,
        ),
        _ => finish(variant, None, OutcomeView::Failed(FatalView::OutOfSequence)),
    }
}

/// Takes the invoker one event further, as [`delegate_step`] says.
pub fn invoke_script(variant: Variant, event: Event) -> (next: (Pipeline, Step))
    ensures
        (next.0@, next.1@) == delegate_step(variant, event@),
{
    match event {
        Event::Failed(reason) => end(
            variant,
            None,
            Outcome::Failed(Fatal::Launch(Program::Python, reason)),
        ),
        Event::Exited(true) => end(variant, Some(Notice::DelegateSucceeded), Outcome::Completed),
        Event::Exited(false) => end(variant, Some(Notice::DelegateFailed), Outcome::Completed),
        _ => end(variant, None, Outcome::Failed(Fatal::OutOfSequence)),
    }
}

} // verus!
