//! The messages that nodes exchange.

use vstd::prelude::*;

verus! {

/// One piece of a byte stream that is sent under a name.
#[derive(Clone, Debug, PartialEq, Eq)]
pub enum Chunk {
    /// The sender failed and gives the transfer up.
    Error,
    /// The transfer is complete.
    End,
    /// The next bytes of a file.
    Data(Vec<u8>),
    /// The next bytes of a raw stream.
    Stream(Vec<u8>),
}

pub enum ChunkView {
    Error,
    End,
    Data(Seq<u8>),
    Stream(Seq<u8>),
}

impl View for Chunk {
    type V = ChunkView;

    open spec fn view(&self) -> ChunkView {
        match self {
            Chunk::Error => ChunkView::Error,
            Chunk::End => ChunkView::End,
            Chunk::Data(data) => ChunkView::Data(data@),
            Chunk::Stream(data) => ChunkView::Stream(data@),
        }
    }
}

/// A video frame as it travels: the packed pixels, then the width and the
/// height that the capturing side declares.
pub type Frame = (Vec<u32>, usize, usize);

/// A message between two nodes.
#[derive(Clone, Debug, PartialEq, Eq)]
pub enum NetMessage {
    /// Announces a node to the discovery group: its name and the port of
    /// its chat listener.
    HelloLan(String, u16),
    /// Answers an announcement on a fresh connection: the sender's name.
    HelloUser(String),
    /// A line of chat.
    UserMessage(String),
    /// A chunk of the stream that is sent under the given name.
    UserData(String, Chunk),
    /// A video frame; `None` says that the stream has ended.
    Stream(Option<Frame>),
}

pub enum NetMessageView {
    HelloLan(Seq<char>, u16),
    HelloUser(Seq<char>),
    UserMessage(Seq<char>),
    UserData(Seq<char>, ChunkView),
    Stream(Option<(Seq<u32>, usize, usize)>),
}

impl View for NetMessage {
    type V = NetMessageView;

    open spec fn view(&self) -> NetMessageView {
        match self {
            NetMessage::HelloLan(user, port) => NetMessageView::HelloLan(user@, *port),
            NetMessage::HelloUser(user) => NetMessageView::HelloUser(user@),
            NetMessage::UserMessage(text) => NetMessageView::UserMessage(text@),
            NetMessage::UserData(name, chunk) => NetMessageView::UserData(name@, chunk@),
            NetMessage::Stream(frame) => NetMessageView::Stream(
                match frame {
                    Some(f) => Some((f.0@, f.1, f.2)),
                    None => None,
                },
            ),
        }
    }
}

/// Whether `count` pixels are as many as a frame of the declared size
/// asks for: half the width, rounded down, times the height.
pub open spec fn frame_fits(count: nat, width: usize, height: usize) -> bool {
    (width / 2) * height == count
}

/// Tests whether `count` pixels fit a frame of the declared size.
pub fn fits_frame(count: usize, width: usize, height: usize) -> (yes: bool)
    ensures
        yes == frame_fits(count as nat, width, height),
{
    let half = width / 2;
    if half == 0 {
        count == 0
    } else if height > count / half {
        proof {
            lemma_product_exceeds(half as int, height as int, count as int);
        }
        false
    } else {
        proof {
            lemma_product_fits(half as int, height as int, count as int);
        }
        half * height == count
    }
}

impl NetMessageView {
    /// Whether a frame in the message has as many pixels as its declared
    /// size asks for. A message without a frame passes.
    pub open spec fn well_sized(self) -> bool {
        self matches NetMessageView::Stream(Some(frame)) ==> frame_fits(
            frame.0.len(),
            frame.1,
            frame.2,
        )
    }
}

impl NetMessage {
    /// Tests whether the message is well sized. A node works on no
    /// message that is not.
    pub fn is_well_sized(&self) -> (yes: bool)
        ensures
            yes == self@.well_sized(),
    {
        match self {
            NetMessage::Stream(Some(frame)) => fits_frame(frame.0.len(), frame.1, frame.2),
            _ => true,
        }
    }
}

proof fn lemma_product_exceeds(half: int, height: int, count: int)
    requires
        half > 0,
        count >= 0,
        height > count / half,
    ensures
        half * height > count,
{
    assert(half * height > count) by (nonlinear_arith)
        requires
            half > 0,
            count >= 0,
            height >= count / half + 1,
    ;
}

proof fn lemma_product_fits(half: int, height: int, count: int)
    requires
        half > 0,
        count >= 0,
        0 <= height <= count / half,
    ensures
        0 <= half * height <= count,
{
    assert(0 <= half * height <= count) by (nonlinear_arith)
        requires
            half > 0,
            count >= 0,
            0 <= height <= count / half,
    ;
}

} // verus!
