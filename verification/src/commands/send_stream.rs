//! Streaming the camera to every connected peer, and stopping the stream.

use vstd::prelude::*;
use crate::action::{is_broadcast, views, Effect, EffectView, Launch, LaunchView, Processing};
use crate::message::{fits_frame, frame_fits, NetMessage, NetMessageView};
use crate::state::{notice, Severity, State, StateView};

verus! {

/// The command that starts a video stream.
pub struct SendStreamCommand;

impl SendStreamCommand {
    pub fn name(&self) -> (name: &'static str)
        ensures
            name@ == "stream"@,
    {
        "stream"
    }

    /// A video stream takes no parameters: the camera is to be opened.
    pub fn parse_params(&self, params: &Vec<String>) -> (launch: Result<Launch, String>)
        ensures
            launch matches Ok(l) && l@ == LaunchView::SendStream,
    {
        Ok(Launch::SendStream)
    }
}

/// A video stream in progress. Its camera is open outside and is known by
/// the number `id`; `width` and `height` are the size of its frames.
#[derive(Debug, PartialEq, Eq)]
pub struct SendStream {
    id: usize,
    width: usize,
    height: usize,
}

/// What one step of the stream `id` does when `frame` is what the camera
/// gave, in a node whose state is `before`. No frame is looked at while
/// the stop flag is set.
pub open spec fn stream_step(
    id: usize,
    width: usize,
    height: usize,
    before: StateView,
    frame: Option<Result<Seq<u32>, Seq<char>>>,
    after: StateView,
    effects: Seq<EffectView>,
    processing: Processing,
) -> bool {
    if before.stop_stream {
        &&& processing == Processing::Completed
        &&& after == (StateView { stop_stream: false, ..before })
        &&& effects.len() == 2
        &&& is_broadcast(effects[0], before.users.dom(), NetMessageView::Stream(None))
        &&& effects[1] == (EffectView::Release { id })
    } else {
        match frame {
            Some(Ok(pixels)) => {
                &&& processing == Processing::Partial
                &&& after == before
                &&& effects.len() == 1
                &&& is_broadcast(
                    effects[0],
                    before.users.dom(),
                    NetMessageView::Stream(Some((pixels, width, height))),
                )
            },
            Some(Err(reason)) => {
                &&& processing == Processing::Completed
                &&& after == before.logged(notice(reason, Severity::Error))
                &&& effects.len() == 2
                &&& is_broadcast(effects[0], before.users.dom(), NetMessageView::Stream(None))
                &&& effects[1] == (EffectView::Release { id })
            },
            None => false,
        }
    }
}

impl SendStream {
    pub closed spec fn id(&self) -> usize {
        self.id
    }

    pub closed spec fn width(&self) -> usize {
        self.width
    }

    pub closed spec fn height(&self) -> usize {
        self.height
    }

    /// The number of the camera of the stream.
    pub fn resource_id(&self) -> (id: usize)
        ensures
            id == self.id(),
    {
        self.id
    }

    /// A stream of the camera `id`, which gives frames of `width` by
    /// `height` pixels.
    pub fn new(id: usize, width: usize, height: usize) -> (task: SendStream)
        ensures
            task.id() == id,
            task.width() == width,
            task.height() == height,
    {
        SendStream { id, width, height }
    }

    /// Whether `count` pixels make a frame of this stream.
    pub open spec fn frames(&self, count: nat) -> bool {
        frame_fits(count, self.width(), self.height())
    }

    /// Tests whether `count` pixels make a frame of this stream.
    pub fn is_frame(&self, count: usize) -> (yes: bool)
        ensures
            yes == self.frames(count as nat),
    {
        fits_frame(count, self.width, self.height)
    }

    /// One step: sends one frame, or ends the stream.
    ///
    /// With the stop flag set the stream ends: the flag is cleared and the
    /// peers are told. Otherwise the frame goes to every peer and the task
    /// stays; a failed capture is noted in the chat log and ends the
    /// stream as the flag does. The step that ends the stream releases the
    /// camera. A frame that is handed in has the size of the stream, so
    /// every message that goes out is well sized.
    pub fn process(
        &mut self,
        state: &mut State,
        frame: Option<Result<Vec<u32>, String>>,
    ) -> (done: (Vec<Effect>, Processing))
        requires
            old(state).wf(),
            old(state)@.stop_stream || frame is Some,
            frame matches Some(Ok(pixels)) ==> old(self).frames(pixels@.len()),
        ensures
            final(state).wf(),
            *final(self) == *old(self),
            views(done.0@)[0] matches EffectView::Broadcast { message, .. } && message.well_sized(),
            stream_step(
                old(self).id(),
                old(self).width(),
                old(self).height(),
                old(state)@,
                match frame {
                    Some(Ok(pixels)) => Some(Ok(pixels@)),
                    Some(Err(reason)) => Some(Err(reason@)),
                    None => None,
                },
                final(state)@,
                views(done.0@),
                done.1,
            ),
    {
        let endpoints = state.all_user_endpoints();
        let mut effects: Vec<Effect> = Vec::new();
        if state.stop_stream() {
            state.set_stop_stream(false);
            effects.push(Effect::Broadcast { endpoints, message: NetMessage::Stream(None) });
            effects.push(Effect::Release { id: self.id });
            return (effects, Processing::Completed);
        }
        match frame {
            Some(Ok(pixels)) => {
                let message = NetMessage::Stream(Some((pixels, self.width, self.height)));
                effects.push(Effect::Broadcast { endpoints, message });
                (effects, Processing::Partial)
            },
            Some(Err(reason)) => {
                state.report_err(reason);
                effects.push(Effect::Broadcast { endpoints, message: NetMessage::Stream(None) });
                effects.push(Effect::Release { id: self.id });
                (effects, Processing::Completed)
            },
            None => (effects, Processing::Completed),
        }
    }
}

/// The command that asks a running video stream to stop.
pub struct StopStreamCommand;

impl StopStreamCommand {
    pub fn name(&self) -> (name: &'static str)
        ensures
            name@ == "stopstream"@,
    {
        "stopstream"
    }

    /// Stopping takes no parameters and opens nothing.
    pub fn parse_params(&self, params: &Vec<String>) -> (task: Result<StopStream, String>)
        ensures
            task is Ok,
    {
        Ok(StopStream {  })
    }
}

/// The task that sets the stop flag. It is done after one step.
#[derive(Debug, PartialEq, Eq)]
pub struct StopStream {}

impl StopStream {
    pub fn process(&mut self, state: &mut State) -> (processing: Processing)
        requires
            old(state).wf(),
        ensures
            final(state).wf(),
            processing == Processing::Completed,
            final(state)@ == (StateView { stop_stream: true, ..old(state)@ }),
    {
        state.set_stop_stream(true);
        Processing::Completed
    }
}

} // verus!
