//! The paced block reader of a file transfer.
//!
//! A reader hands out one block of the file, then waits until the consumer
//! has taken it. So at most one block is held in memory, whatever the size
//! of the file.

use vstd::prelude::*;

verus! {

/// Largest number of bytes that one block holds.
pub const BLOCK: usize = 65536;

/// One block of a file, with what the consumer needs to know of the file.
#[derive(Clone, Debug, PartialEq, Eq)]
pub struct Chunk {
    pub id: usize,
    pub file_name: String,
    pub data: Vec<u8>,
    pub bytes_read: usize,
    pub file_size: usize,
}

pub struct ChunkRecord {
    pub id: usize,
    pub file_name: Seq<char>,
    pub data: Seq<u8>,
    pub bytes_read: usize,
    pub file_size: usize,
}

impl View for Chunk {
    type V = ChunkRecord;

    open spec fn view(&self) -> ChunkRecord {
        ChunkRecord {
            id: self.id,
            file_name: self.file_name@,
            data: self.data@,
            bytes_read: self.bytes_read,
            file_size: self.file_size,
        }
    }
}

/// Where a reader stands in its cycle.
#[derive(Clone, Copy, Debug, PartialEq, Eq, Structural)]
pub enum Phase {
    /// The reader may read the next block.
    Ready,
    /// A block is out; the reader waits for the consumer.
    Waiting,
    /// The end of the file or a failure was reported; nothing follows.
    Finished,
}

/// What a reader is, as mathematical values.
pub struct ReaderView {
    /// The flag that holds the reader back while it is set.
    pub pending: bool,
    pub phase: Phase,
    /// Blocks handed out so far, the empty one at the end included.
    pub produced: nat,
    /// Times the consumer has cleared the flag.
    pub acknowledged: nat,
}

/// Pacing state of one block reader. The thread that reads the file and
/// the task that sends the blocks share it.
pub struct ReadFile {
    pending: bool,
    phase: Phase,
    produced: Ghost<nat>,
    granted: Ghost<nat>,
    acknowledged: Ghost<nat>,
}

impl View for ReadFile {
    type V = ReaderView;

    closed spec fn view(&self) -> ReaderView {
        ReaderView {
            pending: self.pending,
            phase: self.phase,
            produced: self.produced@,
            acknowledged: self.acknowledged@,
        }
    }
}

impl ReadFile {
    /// Blocks are handed out only as far as the consumer has allowed:
    /// one to begin with, and one more for each wait that an
    /// acknowledgement has ended.
    pub closed spec fn wf(&self) -> bool {
        &&& self.granted@ <= self.acknowledged@ + 1
        &&& !self.pending ==> self.granted@ <= self.acknowledged@
        &&& self.phase == Phase::Ready ==> self.produced@ + 1 == self.granted@
        &&& self.phase == Phase::Waiting ==> self.produced@ == self.granted@
        &&& self.phase == Phase::Finished ==> self.produced@ <= self.granted@
    }

    /// A reader before its first block: the flag is set and it may read.
    pub fn new() -> (reader: ReadFile)
        ensures
            reader.wf(),
            reader@ == (ReaderView {
                pending: true,
                phase: Phase::Ready,
                produced: 0,
                acknowledged: 0,
            }),
    {
        ReadFile {
            pending: true,
            phase: Phase::Ready,
            produced: Ghost(0),
            granted: Ghost(1),
            acknowledged: Ghost(0),
        }
    }

    pub fn is_pending(&self) -> (pending: bool)
        ensures
            pending == self@.pending,
    {
        self.pending
    }

    pub fn phase(&self) -> (phase: Phase)
        ensures
            phase == self@.phase,
    {
        self.phase
    }

    /// One turn of the reader, for what the read of the next block gave.
    ///
    /// Bytes that were read, `BLOCK` of them at most, go out as a chunk,
    /// and the reader waits; an empty read goes out as the empty chunk
    /// that ends the file, and a failure goes out as it is: after either
    /// the reader is finished.
    pub fn send(
        &mut self,
        id: usize,
        file_name: String,
        file_size: usize,
        read: Result<Vec<u8>, String>,
    ) -> (block: Result<Chunk, String>)
        requires
            old(self).wf(),
            old(self)@.phase == Phase::Ready,
            read matches Ok(data) ==> data@.len() <= BLOCK,
        ensures
            final(self).wf(),
            block matches Ok(chunk) ==> chunk@.data.len() <= BLOCK,
            match read {
                Ok(data) => {
                    &&& block matches Ok(chunk)
                    &&& chunk@ == (ChunkRecord {
                        id,
                        file_name: file_name@,
                        data: data@,
                        bytes_read: data@.len() as usize,
                        file_size,
                    })
                    &&& final(self)@ == (ReaderView {
                        phase: if data@.len() == 0 {
                            Phase::Finished
                        } else {
                            Phase::Waiting
                        },
                        produced: old(self)@.produced + 1,
                        ..old(self)@
                    })
                },
                Err(text) => {
                    &&& block matches Err(reason)
                    &&& reason@ == text@
                    &&& final(self)@ == (ReaderView { phase: Phase::Finished, ..old(self)@ })
                },
            },
    {
        match read {
            Ok(data) => {
                let bytes_read = data.len();
                self.phase = if bytes_read == 0 {
                    Phase::Finished
                } else {
                    Phase::Waiting
                };
                self.produced = Ghost((self.produced@ + 1) as nat);
                Ok(Chunk { id, file_name, data, bytes_read, file_size })
            },
            Err(text) => {
                self.phase = Phase::Finished;
                Err(text)
            },
        }
    }

    /// The consumer has taken the block: clears the flag.
    pub fn acknowledge(&mut self)
        requires
            old(self).wf(),
        ensures
            final(self).wf(),
            final(self)@ == (ReaderView {
                pending: false,
                acknowledged: old(self)@.acknowledged + 1,
                ..old(self)@
            }),
    {
        self.pending = false;
        self.acknowledged = Ghost((self.acknowledged@ + 1) as nat);
    }

    /// Ends the wait of the reader if the flag is clear: sets the flag
    /// again and lets the reader read. Returns whether the wait has ended;
    /// if not, nothing has changed.
    pub fn resume(&mut self) -> (resumed: bool)
        requires
            old(self).wf(),
        ensures
            final(self).wf(),
            resumed == (old(self)@.phase == Phase::Waiting && !old(self)@.pending),
            resumed ==> final(self)@ == (ReaderView {
                pending: true,
                phase: Phase::Ready,
                ..old(self)@
            }),
            !resumed ==> final(self)@ == old(self)@,
    {
        if self.phase == Phase::Waiting && !self.pending {
            self.pending = true;
            self.phase = Phase::Ready;
            self.granted = Ghost((self.granted@ + 1) as nat);
            true
        } else {
            false
        }
    }

    /// The consumer is gone: the reader is finished, whatever it was
    /// doing, and a reader that waits is let go.
    pub fn close(&mut self)
        requires
            old(self).wf(),
        ensures
            final(self).wf(),
            final(self)@ == (ReaderView { phase: Phase::Finished, ..old(self)@ }),
    {
        self.phase = Phase::Finished;
    }

    /// At most one block is out that the consumer has not acknowledged:
    /// a reader whose consumer has cleared the flag `n` times has handed
    /// out at most `n + 1` blocks.
    pub proof fn lemma_one_block_in_flight(&self)
        requires
            self.wf(),
        ensures
            self@.produced <= self@.acknowledged + 1,
    {
    }
}

} // verus!
