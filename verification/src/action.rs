//! What a step of the node asks of the outside world, and what the outside
//! world hands to a task.

use vstd::prelude::*;
use crate::message::{NetMessage, NetMessageView};
use crate::read_event::{Chunk, ChunkRecord};
use crate::state::{Endpoint, SocketAddress};

verus! {

/// How a task leaves a step.
#[derive(Clone, Copy, Debug, PartialEq, Eq, Structural)]
pub enum Processing {
    /// The task is done and is dropped.
    Completed,
    /// The task wants another step.
    Partial,
}

/// The resources of a task that have to be opened before it can run.
#[derive(Clone, Debug, PartialEq, Eq)]
pub enum Launch {
    /// Open the file at `path` for sending and start its block reader.
    SendFile { path: String },
    /// Open the camera.
    SendStream,
    /// Start the audio recorder.
    SendAudio,
}

pub enum LaunchView {
    SendFile { path: Seq<char> },
    SendStream,
    SendAudio,
}

impl View for Launch {
    type V = LaunchView;

    open spec fn view(&self) -> LaunchView {
        match self {
            Launch::SendFile { path } => LaunchView::SendFile { path: path@ },
            Launch::SendStream => LaunchView::SendStream,
            Launch::SendAudio => LaunchView::SendAudio,
        }
    }
}

/// Work that a step leaves to its caller, to be done in the order given.
#[derive(Clone, Debug, PartialEq, Eq)]
pub enum Effect {
    /// Open a connection to `addr`, where the peer named `user` listens.
    Connect { addr: SocketAddress, user: String },
    /// Send `message` to one endpoint.
    Send { endpoint: Endpoint, message: NetMessage },
    /// Send `message` to each of `endpoints`.
    Broadcast { endpoints: Vec<Endpoint>, message: NetMessage },
    /// Append `data` to the file at `path`, a list of path components
    /// below the platform's directory for temporary files. Directories
    /// that are missing are created.
    AppendFile { path: Vec<String>, data: Vec<u8> },
    /// Open a window of the given size for the frames of `endpoint`.
    OpenWindow { endpoint: Endpoint, width: usize, height: usize },
    /// Show `buffer`, `width` pixels by `height`, in the window of
    /// `endpoint`.
    UpdateWindow { endpoint: Endpoint, buffer: Vec<u32>, width: usize, height: usize },
    /// Close the window of `endpoint`.
    CloseWindow { endpoint: Endpoint },
    /// Open what a task needs and hand the task in.
    Launch(Launch),
    /// Tell the block reader of transfer `id` that its block was taken.
    Acknowledge { id: usize },
    /// Close what task `id` holds open.
    Release { id: usize },
}

pub enum EffectView {
    Connect { addr: SocketAddress, user: Seq<char> },
    Send { endpoint: Endpoint, message: NetMessageView },
    Broadcast { endpoints: Seq<Endpoint>, message: NetMessageView },
    AppendFile { path: Seq<Seq<char>>, data: Seq<u8> },
    OpenWindow { endpoint: Endpoint, width: usize, height: usize },
    UpdateWindow { endpoint: Endpoint, buffer: Seq<u32>, width: usize, height: usize },
    CloseWindow { endpoint: Endpoint },
    Launch(LaunchView),
    Acknowledge { id: usize },
    Release { id: usize },
}

impl View for Effect {
    type V = EffectView;

    open spec fn view(&self) -> EffectView {
        match self {
            Effect::Connect { addr, user } => EffectView::Connect { addr: *addr, user: user@ },
            Effect::Send { endpoint, message } => EffectView::Send {
                endpoint: *endpoint,
                message: message@,
            },
            Effect::Broadcast { endpoints, message } => EffectView::Broadcast {
                endpoints: endpoints@,
                message: message@,
            },
            Effect::AppendFile { path, data } => EffectView::AppendFile {
                path: path@.map_values(|part: String| part@),
                data: data@,
            },
            Effect::OpenWindow { endpoint, width, height } => EffectView::OpenWindow {
                endpoint: *endpoint,
                width: *width,
                height: *height,
            },
            Effect::UpdateWindow { endpoint, buffer, width, height } => EffectView::UpdateWindow {
                endpoint: *endpoint,
                buffer: buffer@,
                width: *width,
                height: *height,
            },
            Effect::CloseWindow { endpoint } => EffectView::CloseWindow { endpoint: *endpoint },
            Effect::Launch(launch) => EffectView::Launch(launch@),
            Effect::Acknowledge { id } => EffectView::Acknowledge { id: *id },
            Effect::Release { id } => EffectView::Release { id: *id },
        }
    }
}

/// The effects of a list, each as mathematical values.
pub open spec fn views(effects: Seq<Effect>) -> Seq<EffectView> {
    effects.map_values(|effect: Effect| effect@)
}

/// Whether `effect` sends `message` to exactly the endpoints of
/// `recipients`, each once.
pub open spec fn is_broadcast(
    effect: EffectView,
    recipients: Set<Endpoint>,
    message: NetMessageView,
) -> bool {
    &&& effect matches EffectView::Broadcast { endpoints, message: sent }
    &&& sent == message
    &&& endpoints.no_duplicates()
    &&& endpoints.to_set() == recipients
}

/// What a task needs from outside before its next step.
#[derive(Clone, Copy, Debug, PartialEq, Eq, Structural)]
pub enum Demand {
    Nothing,
    /// The next block of the file that is sent.
    Block,
    /// One frame of the camera, converted to packed pixels.
    Frame,
    /// The next bytes of the recorder.
    Audio,
}

/// What was fetched for a task. A failure carries its description.
#[derive(Debug, PartialEq, Eq)]
pub enum Supply {
    Nothing,
    Block(Result<Chunk, String>),
    Frame(Result<Vec<u32>, String>),
    Audio(Vec<u8>),
}

pub enum SupplyView {
    Nothing,
    Block(Result<ChunkRecord, Seq<char>>),
    Frame(Result<Seq<u32>, Seq<char>>),
    Audio(Seq<u8>),
}

impl View for Supply {
    type V = SupplyView;

    open spec fn view(&self) -> SupplyView {
        match self {
            Supply::Nothing => SupplyView::Nothing,
            Supply::Block(block) => SupplyView::Block(
                match block {
                    Ok(chunk) => Ok(chunk@),
                    Err(text) => Err(text@),
                },
            ),
            Supply::Frame(frame) => SupplyView::Frame(
                match frame {
                    Ok(pixels) => Ok(pixels@),
                    Err(text) => Err(text@),
                },
            ),
            Supply::Audio(bytes) => SupplyView::Audio(bytes@),
        }
    }
}

impl Supply {
    /// Tests whether this is what a task with the given demand asked
    /// for.
    pub fn fits(&self, demand: Demand) -> (yes: bool)
        ensures
            yes == self@.answers(demand),
    {
        match demand {
            Demand::Nothing => matches!(self, Supply::Nothing),
            Demand::Block => matches!(self, Supply::Block(_)),
            Demand::Frame => matches!(self, Supply::Frame(_)),
            Demand::Audio => matches!(self, Supply::Audio(_)),
        }
    }
}

impl SupplyView {
    /// Whether this is what a task with the given demand asked for.
    pub open spec fn answers(self, demand: Demand) -> bool {
        match demand {
            Demand::Nothing => self is Nothing,
            Demand::Block => self is Block,
            Demand::Frame => self is Frame,
            Demand::Audio => self is Audio,
        }
    }
}

} // verus!
