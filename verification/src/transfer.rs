//! A file on its way from one node to another: what the sending task puts
//! on the wire, block by block, is what the receiving node appends to the
//! file it keeps for the sender.

use vstd::prelude::*;
use crate::action::{EffectView, Processing};
use crate::application::steps::{network_step, received_path};
use crate::application::ApplicationView;
use crate::commands::send_file::file_step;
use crate::message::{ChunkView, NetMessageView};
use crate::read_event::ChunkRecord;
use crate::state::{Endpoint, StateView};

verus! {

/// The chunk that a block of a file travels as: the empty block, which
/// the reader hands out at the end of the file, as the end of the
/// transfer, and any other block as data.
pub open spec fn chunk_of(block: Seq<u8>) -> ChunkView {
    if block.len() == 0 {
        ChunkView::End
    } else {
        ChunkView::Data(block)
    }
}

/// The bytes that `effects` append to the file at `path`, in order.
pub open spec fn appended(effects: Seq<EffectView>, path: Seq<Seq<char>>) -> Seq<u8>
    decreases effects.len(),
{
    if effects.len() == 0 {
        Seq::empty()
    } else {
        let rest = appended(effects.drop_last(), path);
        match effects.last() {
            EffectView::AppendFile { path: target, data } => if target == path {
                rest + data
            } else {
                rest
            },
            _ => rest,
        }
    }
}

/// One block on its way: the step of the sending task that was given the
/// block, and the step of the receiving node that was given the message
/// which that step sent.
pub struct Hop {
    pub block: ChunkRecord,
    pub sender_before: StateView,
    pub sender_after: StateView,
    pub sent: Seq<EffectView>,
    pub processing: Processing,
    pub receiver_before: ApplicationView,
    pub receiver_after: ApplicationView,
    pub received: Seq<EffectView>,
}

impl Hop {
    /// Whether the hop is one of the transfer `id` of the file
    /// `file_name`, which reaches the receiver from `endpoint`, a peer
    /// that the receiver knows as `user`.
    pub open spec fn carries(
        self,
        id: usize,
        file_name: Seq<char>,
        endpoint: Endpoint,
        user: Seq<char>,
    ) -> bool {
        &&& file_step(
            id,
            file_name,
            self.sender_before,
            Ok(self.block),
            self.sender_after,
            self.sent,
            self.processing,
        )
        &&& self.receiver_before.state.users.dom().contains(endpoint)
        &&& self.receiver_before.state.users[endpoint] == user
        &&& self.sent[0] matches EffectView::Broadcast { message, .. }
        &&& network_step(
            self.receiver_before,
            endpoint,
            message,
            self.receiver_after,
            self.received,
        )
    }
}

/// The bytes of the blocks of `hops`, in order.
pub open spec fn bytes_sent(hops: Seq<Hop>) -> Seq<u8>
    decreases hops.len(),
{
    if hops.len() == 0 {
        Seq::empty()
    } else {
        bytes_sent(hops.drop_last()) + hops.last().block.data
    }
}

/// The bytes that the receiver appends to the file at `path` over
/// `hops`, in order.
pub open spec fn bytes_kept(hops: Seq<Hop>, path: Seq<Seq<char>>) -> Seq<u8>
    decreases hops.len(),
{
    if hops.len() == 0 {
        Seq::empty()
    } else {
        bytes_kept(hops.drop_last(), path) + appended(hops.last().received, path)
    }
}

/// A block arrives as it was read: the receiver appends just its bytes
/// to the file it keeps for the sender under the name of the file. The
/// block travels as `chunk_of` says; the empty block, which ends the
/// file, ends the task and has the receiver append nothing, and every
/// other block leaves the task running.
pub proof fn lemma_block_arrives(
    hop: Hop,
    id: usize,
    file_name: Seq<char>,
    endpoint: Endpoint,
    user: Seq<char>,
)
    requires
        hop.carries(id, file_name, endpoint, user),
    ensures
        hop.sent[0] matches EffectView::Broadcast { message, .. } && message
            == NetMessageView::UserData(file_name, chunk_of(hop.block.data)),
        appended(hop.received, received_path(user, file_name)) == hop.block.data,
        hop.block.data.len() == 0 ==> hop.processing == Processing::Completed
            && hop.received.len() == 0,
        hop.block.data.len() > 0 ==> hop.processing == Processing::Partial,
        hop.receiver_after.state.users == hop.receiver_before.state.users,
{
    let path = received_path(user, file_name);
    reveal_with_fuel(appended, 2);
    if hop.block.data.len() > 0 {
        assert(hop.received.len() == 1);
        assert(hop.received.drop_last().len() == 0);
        assert(appended(hop.received, path) =~= hop.block.data);
    } else {
        assert(appended(hop.received, path) =~= hop.block.data);
    }
}

/// A file arrives as it was read. Over the blocks of one transfer, in
/// the order in which they were read and received, the bytes that the
/// receiver appends to the file it keeps for the sender are the bytes of
/// the blocks: the same bytes, and so as many.
pub proof fn lemma_file_arrives(
    hops: Seq<Hop>,
    id: usize,
    file_name: Seq<char>,
    endpoint: Endpoint,
    user: Seq<char>,
)
    requires
        forall|i: int|
            0 <= i < hops.len() ==> (#[trigger] hops[i]).carries(id, file_name, endpoint, user),
    ensures
        bytes_kept(hops, received_path(user, file_name)) == bytes_sent(hops),
        bytes_kept(hops, received_path(user, file_name)).len() == bytes_sent(hops).len(),
    decreases hops.len(),
{
    if hops.len() > 0 {
        lemma_file_arrives(hops.drop_last(), id, file_name, endpoint, user);
        lemma_block_arrives(hops.last(), id, file_name, endpoint, user);
    }
}

/// An empty file travels as the end of the transfer alone: its one
/// block is the empty one, no data chunk is sent, and the receiver
/// appends nothing.
pub proof fn lemma_empty_file(
    hop: Hop,
    id: usize,
    file_name: Seq<char>,
    endpoint: Endpoint,
    user: Seq<char>,
)
    requires
        hop.carries(id, file_name, endpoint, user),
        hop.block.data.len() == 0,
    ensures
        hop.sent[0] matches EffectView::Broadcast { message, .. } && message
            == NetMessageView::UserData(file_name, ChunkView::End),
        hop.processing == Processing::Completed,
        hop.received.len() == 0,
        bytes_kept(seq![hop], received_path(user, file_name)).len() == 0,
{
    lemma_block_arrives(hop, id, file_name, endpoint, user);
    lemma_file_arrives(seq![hop], id, file_name, endpoint, user);
    reveal_with_fuel(bytes_sent, 2);
    assert(seq![hop].drop_last().len() == 0);
}

} // verus!
