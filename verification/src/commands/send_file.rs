//! Sending a file to every connected peer, block by block.

use vstd::prelude::*;
use crate::action::{is_broadcast, views, Effect, EffectView, Launch, LaunchView, Processing};
use crate::message::{Chunk, ChunkView, NetMessage, NetMessageView};
use crate::read_event::{Chunk as Block, ChunkRecord};
use crate::state::{notice, Severity, State};

verus! {

/// The command that starts a file transfer.
pub struct SendFileCommand;

impl SendFileCommand {
    pub fn name(&self) -> (name: &'static str)
        ensures
            name@ == "send"@,
    {
        "send"
    }

    /// Reads the path of the file from the first parameter. Without a
    /// parameter there is nothing to send, and the reason is returned.
    pub fn parse_params(&self, params: &Vec<String>) -> (launch: Result<Launch, String>)
        ensures
            params@.len() == 0 ==> (launch matches Err(reason) && reason@
                == "No file specified"@),
            params@.len() > 0 ==> (launch matches Ok(l) && l@ == (LaunchView::SendFile {
                path: params@[0]@,
            })),
    {
        if params.len() == 0 {
            Err(String::from_str("No file specified"))
        } else {
            Ok(Launch::SendFile { path: params[0].clone() })
        }
    }
}

/// A file transfer in progress. Its block reader runs outside and is
/// known by the number `id`.
#[derive(Debug, PartialEq, Eq)]
pub struct SendFile {
    id: usize,
    file_name: String,
}

/// What one step of the transfer `id` of the file `file_name` does with
/// `block`, in a node whose state is `before`.
pub open spec fn file_step(
    id: usize,
    file_name: Seq<char>,
    before: crate::state::StateView,
    block: Result<ChunkRecord, Seq<char>>,
    after: crate::state::StateView,
    effects: Seq<EffectView>,
    processing: Processing,
) -> bool {
    match block {
        Err(reason) => {
            &&& processing == Processing::Completed
            &&& after == before.logged(notice(reason, Severity::Error))
            &&& effects.len() == 2
            &&& is_broadcast(
                effects[0],
                before.users.dom(),
                NetMessageView::UserData(file_name, ChunkView::Error),
            )
            &&& effects[1] == (EffectView::Release { id })
        },
        Ok(chunk) => if chunk.data.len() == 0 {
            &&& processing == Processing::Completed
            &&& after == before
            &&& effects.len() == 2
            &&& is_broadcast(
                effects[0],
                before.users.dom(),
                NetMessageView::UserData(file_name, ChunkView::End),
            )
            &&& effects[1] == (EffectView::Release { id })
        } else {
            &&& processing == Processing::Partial
            &&& after == before
            &&& effects.len() == 2
            &&& is_broadcast(
                effects[0],
                before.users.dom(),
                NetMessageView::UserData(file_name, ChunkView::Data(chunk.data)),
            )
            &&& effects[1] == (EffectView::Acknowledge { id })
        },
    }
}

impl SendFile {
    pub closed spec fn id(&self) -> usize {
        self.id
    }

    pub closed spec fn file_name(&self) -> Seq<char> {
        self.file_name@
    }

    /// The number of the block reader of the transfer.
    pub fn resource_id(&self) -> (id: usize)
        ensures
            id == self.id(),
    {
        self.id
    }

    pub fn new(id: usize, file_name: String) -> (task: SendFile)
        ensures
            task.id() == id,
            task.file_name() == file_name@,
    {
        SendFile { id, file_name }
    }

    /// One step: sends what the reader handed out.
    ///
    /// A block with bytes goes to every peer, the reader is told to go on,
    /// and the task stays. The empty block ends the transfer. A failure of
    /// the reader is passed on to the peers and noted in the chat log, and
    /// ends the transfer too. The step that ends the transfer releases the
    /// reader.
    pub fn process(&mut self, state: &mut State, block: Result<Block, String>) -> (done: (
        Vec<Effect>,
        Processing,
    ))
        requires
            old(state).wf(),
        ensures
            final(state).wf(),
            *final(self) == *old(self),
            file_step(
                old(self).id(),
                old(self).file_name(),
                old(state)@,
                match block {
                    Ok(chunk) => Ok(chunk@),
                    Err(reason) => Err(reason@),
                },
                final(state)@,
                views(done.0@),
                done.1,
            ),
    {
        let endpoints = state.all_user_endpoints();
        let name = self.file_name.clone();
        let mut effects: Vec<Effect> = Vec::new();
        let processing = match block {
            Err(reason) => {
                state.report_err(reason);
                let message = NetMessage::UserData(name, Chunk::Error);
                effects.push(Effect::Broadcast { endpoints, message });
                effects.push(Effect::Release { id: self.id });
                Processing::Completed
            },
            Ok(chunk) => {
                if chunk.data.len() == 0 {
                    let message = NetMessage::UserData(name, Chunk::End);
                    effects.push(Effect::Broadcast { endpoints, message });
                    effects.push(Effect::Release { id: self.id });
                    Processing::Completed
                } else {
                    effects.push(
                        Effect::Broadcast {
                            endpoints,
                            message: NetMessage::UserData(name, Chunk::Data(chunk.data)),
                        },
                    );
                    effects.push(Effect::Acknowledge { id: self.id });
                    Processing::Partial
                }
            },
        };
        (effects, processing)
    }
}

} // verus!
