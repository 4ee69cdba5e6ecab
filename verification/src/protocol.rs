//! What passes between the sequence and its caller.
//!
//! The sequence never touches the outside world. It hands out one [`Action`]
//! at a time; the caller carries the action out and reports what came of it
//! as an [`Event`]; the sequence answers with the next [`Step`].

use crate::command::{Invocation, InvocationView};
use crate::environment::EnvironmentMap;
use crate::outcome::{Notice, Outcome, OutcomeView};
use crate::paths::Location;
use vstd::prelude::*;

verus! {

/// What the caller is asked to do next.
#[derive(Debug, PartialEq, Eq)]
pub enum Action {
    /// Find out whether the location exists.
    Probe(Location),
    /// Create the directory, and its parents where they are missing.
    CreateDir(Location),
    /// Create the file, or empty it, and write the text to it.
    WriteFile(Location, String),
    /// Load the environment file and report the variables that the
    /// environment then defines.
    LoadEnv(Location),
    /// Start the program and wait until it has exited.
    Spawn(Invocation),
    /// Print the outcome's message and end the process with its status.
    Exit(Outcome),
}

/// What an [`Action`] is to the verifier.
pub enum ActionView {
    Probe(Location),
    CreateDir(Location),
    WriteFile(Location, Seq<char>),
    LoadEnv(Location),
    Spawn(InvocationView),
    Exit(OutcomeView),
}

impl View for Action {
    type V = ActionView;

    open spec fn view(&self) -> ActionView {
        match self {
            Action::Probe(location) => ActionView::Probe(*location),
            Action::CreateDir(location) => ActionView::CreateDir(*location),
            Action::WriteFile(location, text) => ActionView::WriteFile(*location, text@),
            Action::LoadEnv(location) => ActionView::LoadEnv(*location),
            Action::Spawn(call) => ActionView::Spawn(call@),
            Action::Exit(outcome) => ActionView::Exit(outcome@),
        }
    }
}

/// What came of the action that was pending.
#[derive(Debug)]
pub enum Event {
    /// The probed location exists, or does not.
    Present(bool),
    /// The directory was created, or the file written.
    Done,
    /// The environment file was loaded; these are the variables that the
    /// environment now defines.
    Loaded(EnvironmentMap),
    /// The program ran and exited, with success or without.
    Exited(bool),
    /// The action could not be carried out; the text says why.
    Failed(String),
}

/// What an [`Event`] is to the verifier.
pub enum EventView {
    Present(bool),
    Done,
    Loaded(Map<Seq<char>, Seq<char>>),
    Exited(bool),
    Failed(Seq<char>),
}

impl View for Event {
    type V = EventView;

    open spec fn view(&self) -> EventView {
        match self {
            Event::Present(found) => EventView::Present(*found),
            Event::Done => EventView::Done,
            Event::Loaded(env) => EventView::Loaded(env@),
            Event::Exited(success) => EventView::Exited(*success),
            Event::Failed(reason) => EventView::Failed(reason@),
        }
    }
}

/// One answer of the sequence: a progress message to print, if any, and the
/// action to carry out after it.
#[derive(Debug, PartialEq, Eq)]
pub struct Step {
    pub notice: Option<Notice>,
    pub action: Action,
}

/// What a [`Step`] is to the verifier.
pub struct StepView {
    pub notice: Option<Notice>,
    pub action: ActionView,
}

impl View for Step {
    type V = StepView;

    open spec fn view(&self) -> StepView {
        StepView { notice: self.notice, action: self.action@ }
    }
}

} // verus!
