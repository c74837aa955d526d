//! The parameter stager: lays out the per-frame parameters as bytes and
//! schedules their copy into the uniform buffer.
//!
//! The bytes are written into a transient region of a belt of staging
//! buffers, and the copy from there is recorded in the frame's command
//! sequence before any pass. The belt itself lives with the device.

use vstd::prelude::*;
use crate::geometry::Resolution;
use crate::resources::{UNIFORM, UNIFORM_BLOCK_BYTES};

verus! {

/// Byte size of one chunk of the staging belt.
pub const BELT_CHUNK_BYTES: u64 = 0x100;

/// The parameters that every pass of a frame reads.
#[derive(Clone, Copy, Debug, PartialEq, Eq, Structural)]
pub struct UniformParams {
    pub width: u32,
    pub height: u32,
    pub frame_index: u32,
}

impl UniformParams {
    /// The words of the block, in the order in which a shader declares
    /// them.
    pub open spec fn words(self) -> Seq<u32> {
        seq![self.width, self.height, self.frame_index]
    }
}

/// The four bytes of a word, least significant first.
pub open spec fn little_endian(word: u32) -> Seq<u8> {
    seq![
        (word % 0x100) as u8,
        (word / 0x100 % 0x100) as u8,
        (word / 0x1_0000 % 0x100) as u8,
        (word / 0x100_0000) as u8,
    ]
}

/// The four bytes of a word, most significant first.
pub open spec fn big_endian(word: u32) -> Seq<u8> {
    seq![
        (word / 0x100_0000) as u8,
        (word / 0x1_0000 % 0x100) as u8,
        (word / 0x100 % 0x100) as u8,
        (word % 0x100) as u8,
    ]
}

/// Three words laid out one after the other, each in the given byte order.
pub open spec fn block_bytes(words: Seq<u32>, little: bool) -> Seq<u8> {
    if little {
        little_endian(words[0]) + little_endian(words[1]) + little_endian(words[2])
    } else {
        big_endian(words[0]) + big_endian(words[1]) + big_endian(words[2])
    }
}

/// Whether `bytes` is the block of `words` in one of the two byte orders
/// that a machine can have.
pub open spec fn is_block_of(bytes: Seq<u8>, words: Seq<u32>) -> bool {
    bytes == block_bytes(words, true) || bytes == block_bytes(words, false)
}

/// A block has as many bytes as the uniform buffer, whatever the byte
/// order.
pub proof fn lemma_block_len(bytes: Seq<u8>, words: Seq<u32>)
    requires
        is_block_of(bytes, words),
    ensures
        bytes.len() == UNIFORM_BLOCK_BYTES,
{
}

/// An upload that has been given its bytes and awaits its copy.
#[derive(Clone, Debug, PartialEq, Eq)]
pub struct ScheduledUpload {
    /// Handle of the buffer that the copy writes.
    pub target: usize,
    /// Byte offset of the copy in the target.
    pub offset: u64,
    /// What is copied.
    pub bytes: Vec<u8>,
}

/// The bytes of three words as they lie in memory.
///
/// Calls `bytemuck::bytes_of`, which reinterprets the array in place: the
/// result has the twelve bytes of the three words in order, each word in
/// the byte order of the machine. Which of the two orders that is, is not
/// stated.
#[verifier::external_body]
fn words_as_bytes(words: &[u32; 3]) -> (bytes: Vec<u8>)
    ensures
        is_block_of(bytes@, words@),
{
    bytemuck::bytes_of(words).to_vec()
}

/// The parameters of a frame of the given resolution and index.
pub fn frame_params(resolution: Resolution, frame_index: u32) -> (params: UniformParams)
    ensures
        params == (UniformParams {
            width: resolution.width,
            height: resolution.height,
            frame_index,
        }),
{
    UniformParams { width: resolution.width, height: resolution.height, frame_index }
}

/// Stages the parameters of a frame: their block, to be copied to the
/// start of the uniform buffer. The block fills the buffer exactly.
pub fn stage(params: &UniformParams) -> (upload: ScheduledUpload)
    ensures
        upload.target == UNIFORM,
        upload.offset == 0,
        is_block_of(upload.bytes@, params.words()),
        upload.bytes@.len() == UNIFORM_BLOCK_BYTES,
        upload.bytes@.len() <= BELT_CHUNK_BYTES,
{
    let words: [u32; 3] = [params.width, params.height, params.frame_index];
    assert(words@ =~= params.words());
    let bytes = words_as_bytes(&words);
    ScheduledUpload { target: UNIFORM, offset: 0, bytes }
}

} // verus!
