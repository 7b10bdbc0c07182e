//! Tasks: units of work that the event loop advances one step at a time.
//!
//! A task that is not done after a step is queued again and so takes
//! turns with the events of the network and of the terminal. What a task
//! holds open outside (a file, a camera, a recorder) is known by a number
//! and is released by the step that ends the task.

use vstd::prelude::*;
use crate::action::{
    is_broadcast, views, Demand, Effect, EffectView, Processing, Supply, SupplyView,
};
use crate::commands::send_audio::{audio_name, SendAudio};
use crate::commands::send_file::{file_step, SendFile};
use crate::commands::send_stream::{stream_step, SendStream, StopStream};
use crate::message::{ChunkView, NetMessageView};
use crate::state::{State, StateView};

verus! {

/// The tasks of a node.
#[derive(Debug, PartialEq, Eq)]
pub enum Task {
    SendFile(SendFile),
    SendStream(SendStream),
    StopStream(StopStream),
    SendAudio(SendAudio),
}

/// How often `effects` releases what task `id` holds open.
pub open spec fn releases(effects: Seq<EffectView>, id: usize) -> nat
    decreases effects.len(),
{
    if effects.len() == 0 {
        0
    } else {
        let rest = releases(effects.drop_last(), id);
        if effects.last() == (EffectView::Release { id }) {
            rest + 1
        } else {
            rest
        }
    }
}

/// One step of a task, as it was observed: the state before, what was
/// supplied, the state after, the effects and how the step ended.
pub struct Turn {
    pub before: StateView,
    pub supply: SupplyView,
    pub after: StateView,
    pub effects: Seq<EffectView>,
    pub processing: Processing,
}

/// How often the steps of `run` together release what task `id` holds.
pub open spec fn releases_in(run: Seq<Turn>, id: usize) -> nat
    decreases run.len(),
{
    if run.len() == 0 {
        0
    } else {
        releases_in(run.drop_last(), id) + releases(run.last().effects, id)
    }
}

impl Task {
    /// The number of what the task holds open outside, if it holds
    /// anything.
    pub open spec fn resource(&self) -> Option<usize> {
        match self {
            Task::SendFile(task) => Some(task.id()),
            Task::SendStream(task) => Some(task.id()),
            Task::StopStream(_) => None,
            Task::SendAudio(task) => Some(task.id()),
        }
    }

    /// What the next step of the task needs from outside.
    pub open spec fn needs(&self, state: StateView) -> Demand {
        match self {
            Task::SendFile(_) => Demand::Block,
            Task::SendStream(_) => if state.stop_stream {
                Demand::Nothing
            } else {
                Demand::Frame
            },
            Task::StopStream(_) => Demand::Nothing,
            Task::SendAudio(_) => Demand::Audio,
        }
    }

    /// Whether the task can take `supply`: a frame has the size of the
    /// stream it is for.
    pub open spec fn accepts(&self, supply: SupplyView) -> bool {
        match self {
            Task::SendStream(task) => supply matches SupplyView::Frame(Ok(pixels)) ==> task.frames(
                pixels.len(),
            ),
            _ => true,
        }
    }

    /// What a step of the task does.
    pub open spec fn step(&self, turn: Turn) -> bool {
        match self {
            Task::SendFile(task) => {
                &&& turn.supply matches SupplyView::Block(block)
                &&& file_step(
                    task.id(),
                    task.file_name(),
                    turn.before,
                    block,
                    turn.after,
                    turn.effects,
                    turn.processing,
                )
            },
            Task::SendStream(task) => stream_step(
                task.id(),
                task.width(),
                task.height(),
                turn.before,
                match turn.supply {
                    SupplyView::Frame(frame) => Some(frame),
                    _ => None,
                },
                turn.after,
                turn.effects,
                turn.processing,
            ),
            Task::StopStream(_) => {
                &&& turn.processing == Processing::Completed
                &&& turn.after == (StateView { stop_stream: true, ..turn.before })
                &&& turn.effects.len() == 0
            },
            Task::SendAudio(_) => {
                &&& turn.supply matches SupplyView::Audio(bytes)
                &&& turn.processing == Processing::Partial
                &&& turn.after == turn.before
                &&& turn.effects.len() == 1
                &&& is_broadcast(
                    turn.effects[0],
                    turn.before.users.dom(),
                    NetMessageView::UserData(audio_name(), ChunkView::Stream(bytes)),
                )
            },
        }
    }

    /// The number of what the task holds open outside, if it holds
    /// anything.
    pub fn resource_id(&self) -> (id: Option<usize>)
        ensures
            id == self.resource(),
    {
        match self {
            Task::SendFile(task) => Some(task.resource_id()),
            Task::SendStream(task) => Some(task.resource_id()),
            Task::StopStream(_) => None,
            Task::SendAudio(task) => Some(task.resource_id()),
        }
    }

    /// What the next step of the task needs from outside.
    pub fn demand(&self, state: &State) -> (demand: Demand)
        ensures
            demand == self.needs(state@),
    {
        match self {
            Task::SendFile(_) => Demand::Block,
            Task::SendStream(_) => if state.stop_stream() {
                Demand::Nothing
            } else {
                Demand::Frame
            },
            Task::StopStream(_) => Demand::Nothing,
            Task::SendAudio(_) => Demand::Audio,
        }
    }

    /// Tests whether the task can take `supply`.
    pub fn takes(&self, supply: &Supply) -> (yes: bool)
        ensures
            yes == self.accepts(supply@),
    {
        match self {
            Task::SendStream(task) => match supply {
                Supply::Frame(Ok(pixels)) => task.is_frame(pixels.len()),
                _ => true,
            },
            _ => true,
        }
    }

    /// Advances the task by one step, with what it asked for.
    pub fn process(&mut self, state: &mut State, supply: Supply) -> (done: (
        Vec<Effect>,
        Processing,
    ))
        requires
            old(state).wf(),
            supply@.answers(old(self).needs(old(state)@)),
            old(self).accepts(supply@),
        ensures
            final(state).wf(),
            *final(self) == *old(self),
            old(self).step(
                Turn {
                    before: old(state)@,
                    supply: supply@,
                    after: final(state)@,
                    effects: views(done.0@),
                    processing: done.1,
                },
            ),
    {
        match self {
            Task::SendFile(task) => match supply {
                Supply::Block(block) => task.process(state, block),
                _ => (Vec::new(), Processing::Completed),
            },
            Task::SendStream(task) => match supply {
                Supply::Frame(frame) => task.process(state, Some(frame)),
                _ => task.process(state, None),
            },
            Task::StopStream(task) => {
                let processing = task.process(state);
                (Vec::new(), processing)
            },
            Task::SendAudio(task) => match supply {
                Supply::Audio(bytes) => task.process(state, bytes),
                _ => (Vec::new(), Processing::Completed),
            },
        }
    }

    /// A step that ends a task releases what the task holds exactly once,
    /// and a step that does not end it releases nothing.
    pub proof fn lemma_step_releases(&self, turn: Turn)
        requires
            self.step(turn),
            self.resource() is Some,
        ensures
            releases(turn.effects, self.resource()->0) == (if turn.processing
                == Processing::Completed {
                1nat
            } else {
                0nat
            }),
    {
        let id = self.resource()->0;
        let effects = turn.effects;
        reveal_with_fuel(releases, 3);
        if effects.len() == 2 {
            assert(effects.drop_last().len() == 1);
            assert(effects.drop_last().last() == effects[0]);
            assert(effects.drop_last().drop_last().len() == 0);
        } else if effects.len() == 1 {
            assert(effects.drop_last().len() == 0);
        }
    }

    /// Over the steps of one task, of which the last alone ends it, what
    /// the task holds is released exactly once, and by that last step.
    pub proof fn lemma_released_once(&self, run: Seq<Turn>)
        requires
            self.resource() is Some,
            run.len() > 0,
            forall|i: int| 0 <= i < run.len() ==> self.step(#[trigger] run[i]),
            forall|i: int|
                0 <= i < run.len() - 1 ==> (#[trigger] run[i]).processing == Processing::Partial,
            run.last().processing == Processing::Completed,
        ensures
            releases_in(run, self.resource()->0) == 1,
            releases(run.last().effects, self.resource()->0) == 1,
            releases_in(run.drop_last(), self.resource()->0) == 0,
    {
        self.lemma_step_releases(run.last());
        self.lemma_partial_steps_release_nothing(run.drop_last());
    }

    /// Steps that leave a task running release nothing.
    pub proof fn lemma_partial_steps_release_nothing(&self, run: Seq<Turn>)
        requires
            self.resource() is Some,
            forall|i: int| 0 <= i < run.len() ==> self.step(#[trigger] run[i]),
            forall|i: int|
                0 <= i < run.len() ==> (#[trigger] run[i]).processing == Processing::Partial,
        ensures
            releases_in(run, self.resource()->0) == 0,
        decreases run.len(),
    {
        if run.len() > 0 {
            self.lemma_step_releases(run.last());
            self.lemma_partial_steps_release_nothing(run.drop_last());
        }
    }
}

} // verus!
