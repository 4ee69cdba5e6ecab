//! A model of the surroundings of a run.
//!
//! The sequence itself knows no disk and no caller. To say what a whole run
//! does, this module models both: a [`Disk`] on which nothing fails, and a
//! [`World`] in which a caller carries out each action in turn and reports
//! back faithfully.

use crate::keys::Variant;
use crate::laws::{awaited, position};
use crate::paths::Location;
use crate::pipeline::{first_step, initial, step};
use crate::protocol::{ActionView, EventView, StepView};
use crate::state::PipelineView;
use vstd::prelude::*;

verus! {

/// The part of the file system that the sequence deals with.
pub struct Disk {
    /// Whether the configuration directory exists.
    pub config_dir: bool,
    /// The text of the environment file, if the file exists.
    pub env_file: Option<Seq<char>>,
    /// Whether the data directory exists.
    pub data_dir: bool,
}

impl Disk {
    /// A file lies in a directory: where the environment file exists, so does
    /// the configuration directory.
    pub open spec fn consistent(self) -> bool {
        self.env_file is Some ==> self.config_dir
    }

    /// Whether the location exists.
    pub open spec fn holds(self, location: Location) -> bool {
        match location {
            Location::ConfigDir => self.config_dir,
            Location::EnvFile => self.env_file is Some,
            Location::DataDir => self.data_dir,
        }
    }

    /// Whether an action is work on the disk, which the disk itself answers.
    pub open spec fn serves(action: ActionView) -> bool {
        action is Probe || action is CreateDir || action is WriteFile
    }

    /// The answer to an action on the disk. Nothing fails.
    pub open spec fn answer(self, action: ActionView) -> EventView {
        match action {
            ActionView::Probe(location) => EventView::Present(self.holds(location)),
            _ => EventView::Done,
        }
    }

    /// The disk after an action. Only the creation of the two directories and
    /// the writing of the environment file change it.
    pub open spec fn after(self, action: ActionView) -> Disk {
        match action {
            ActionView::CreateDir(Location::ConfigDir) => Disk { config_dir: true, ..self },
            ActionView::CreateDir(Location::DataDir) => Disk { data_dir: true, ..self },
            ActionView::WriteFile(Location::EnvFile, text) => Disk {
                env_file: Some(text),
                ..self
            },
            _ => self,
        }
    }
}

/// A run together with its surroundings.
pub struct World {
    /// Where the run stands.
    pub pipeline: PipelineView,
    /// The answer that the caller holds and has not carried out yet.
    pub pending: StepView,
    /// The disk.
    pub disk: Disk,
    /// The actions carried out so far, oldest first.
    pub done: Seq<ActionView>,
}

/// The world in which a run starts.
pub open spec fn fresh(variant: Variant, disk: Disk) -> World {
    World { pipeline: initial(variant), pending: first_step(), disk, done: Seq::empty() }
}

/// One turn of the caller: the pending action is carried out and reported,
/// and the sequence answers. Work on the disk is answered by the disk; for
/// anything else `reply` is what the outside reports. An exit is the end:
/// nothing is carried out after it.
pub open spec fn turn(w: World, reply: EventView) -> World {
    let action = w.pending.action;
    if action is Exit {
        w
    } else {
        let event = if Disk::serves(action) {
            w.disk.answer(action)
        } else {
            reply
        };
        let (pipeline, pending) = step(w.pipeline, event);
        World { pipeline, pending, disk: w.disk.after(action), done: w.done.push(action) }
    }
}

/// The world after as many turns as there are replies. A reply whose turn is
/// work on the disk goes unused.
pub open spec fn play(w: World, replies: Seq<EventView>) -> World
    decreases replies.len(),
{
    if replies.len() == 0 {
        w
    } else {
        play(turn(w, replies[0]), replies.drop_first())
    }
}

/// Whether the caller holds the action that the run waits for.
pub open spec fn in_step(w: World) -> bool {
    awaited(w.pipeline.stage, w.pending.action)
}

/// Once the sequence has answered with an exit, the world stays as it is.
pub proof fn exit_ends_the_run(w: World, replies: Seq<EventView>)
    requires
        w.pending.action is Exit,
    ensures
        play(w, replies) == w,
    decreases replies.len(),
{
    if replies.len() > 0 {
        exit_ends_the_run(w, replies.drop_first());
    }
}

/// The caller and the run stay in step.
pub proof fn world_stays_in_step(w: World, replies: Seq<EventView>)
    requires
        in_step(w),
    ensures
        in_step(play(w, replies)),
        play(w, replies).pipeline.variant == w.pipeline.variant,
    decreases replies.len(),
{
    if replies.len() > 0 {
        let next = turn(w, replies[0]);
        world_stays_in_step(next, replies.drop_first());
    }
}

/// Each turn takes the run at least one stage further until it is over.
pub proof fn play_moves_forward(w: World, replies: Seq<EventView>)
    requires
        in_step(w),
    ensures
        position(play(w, replies).pipeline.stage) >= position(w.pipeline.stage) + replies.len()
            || play(w, replies).pipeline.stage is Finished,
    decreases replies.len(),
{
    if replies.len() > 0 {
        let next = turn(w, replies[0]);
        play_moves_forward(next, replies.drop_first());
        if next.pipeline.stage is Finished {
            exit_ends_the_run(next, replies.drop_first());
        }
    }
}

/// Every run is over after ten actions at most, whatever the disk holds and
/// whatever the outside reports.
pub proof fn run_ends_within_ten_actions(variant: Variant, disk: Disk, replies: Seq<EventView>)
    requires
        replies.len() >= 10,
    ensures
        play(fresh(variant, disk), replies).pipeline.stage is Finished,
        play(fresh(variant, disk), replies).pending.action is Exit,
{
    let start = fresh(variant, disk);
    play_moves_forward(start, replies);
    world_stays_in_step(start, replies);
}

} // verus!
