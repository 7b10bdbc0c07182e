//! Streaming recorded audio to every connected peer.

use vstd::prelude::*;
use crate::action::{is_broadcast, views, Effect, Launch, LaunchView, Processing};
use crate::message::{Chunk, ChunkView, NetMessage, NetMessageView};
use crate::state::State;

verus! {

/// The command that starts an audio stream.
pub struct SendAudioCommand;

impl SendAudioCommand {
    pub fn name(&self) -> (name: &'static str)
        ensures
            name@ == "sa"@,
    {
        "sa"
    }

    /// An audio stream takes no parameters: the recorder is to be started.
    pub fn parse_params(&self, params: &Vec<String>) -> (launch: Result<Launch, String>)
        ensures
            launch matches Ok(l) && l@ == LaunchView::SendAudio,
    {
        Ok(Launch::SendAudio)
    }
}

/// An audio stream in progress. Its recorder runs outside and is known by
/// the number `id`.
#[derive(Debug, PartialEq, Eq)]
pub struct SendAudio {
    id: usize,
}

/// Name under which the audio chunks travel.
pub open spec fn audio_name() -> Seq<char> {
    "AUDIO"@
}

impl SendAudio {
    pub closed spec fn id(&self) -> usize {
        self.id
    }

    /// The number of the recorder of the stream.
    pub fn resource_id(&self) -> (id: usize)
        ensures
            id == self.id(),
    {
        self.id
    }

    pub fn new(id: usize) -> (task: SendAudio)
        ensures
            task.id() == id,
    {
        SendAudio { id }
    }

    /// One step: sends the bytes that the recorder gave to every peer, as
    /// a raw chunk. The task always stays: nothing ends an audio stream
    /// but the end of the node.
    pub fn process(&mut self, state: &mut State, bytes: Vec<u8>) -> (done: (
        Vec<Effect>,
        Processing,
    ))
        requires
            old(state).wf(),
        ensures
            final(state).wf(),
            *final(self) == *old(self),
            final(state)@ == old(state)@,
            done.1 == Processing::Partial,
            done.0@.len() == 1,
            is_broadcast(
                views(done.0@)[0],
                old(state)@.users.dom(),
                NetMessageView::UserData(audio_name(), ChunkView::Stream(bytes@)),
            ),
    {
        let endpoints = state.all_user_endpoints();
        let message = NetMessage::UserData(String::from_str("AUDIO"), Chunk::Stream(bytes));
        let mut effects: Vec<Effect> = Vec::new();
        effects.push(Effect::Broadcast { endpoints, message });
        (effects, Processing::Partial)
    }
}

} // verus!
