//! Decoding of the embedded shader binaries: a byte blob is accepted only
//! if it is a well-formed little-endian word stream opening with the
//! standard intermediate-bytecode magic word. Corrupt bytecode is a fatal
//! startup error, not recoverable.

use vstd::prelude::*;

use crate::errors::BootError;

verus! {

/// The magic word every valid shader binary opens with.
pub const SPIRV_MAGIC: u32 = 0x0723_0203;

/// Word `i` of the blob, read little-endian.
pub open spec fn spirv_word_at(bytes: Seq<u8>, i: int) -> u32
    recommends
        0 <= i,
        4 * i + 3 < bytes.len(),
{
    (bytes[4 * i] as u32) | ((bytes[4 * i + 1] as u32) << 8) | ((bytes[4 * i + 2] as u32) << 16) | (
    (bytes[4 * i + 3] as u32) << 24)
}

/// The whole blob as its little-endian word stream.
pub open spec fn spirv_words(bytes: Seq<u8>) -> Seq<u32> {
    Seq::new((bytes.len() / 4) as nat, |i: int| spirv_word_at(bytes, i))
}

/// A valid shader binary: nonempty, a whole number of words, opening with
/// the magic word.
pub open spec fn valid_spirv(bytes: Seq<u8>) -> bool {
    &&& bytes.len() % 4 == 0
    &&& bytes.len() > 0
    &&& spirv_word_at(bytes, 0) == SPIRV_MAGIC
}

/// Decodes a shader binary into its word stream. Succeeds exactly on
/// valid binaries; anything else is the `ShaderModuleInvalid` failure.
pub fn decode_spirv(bytes: &Vec<u8>) -> (r: Result<Vec<u32>, BootError>)
    ensures
        r is Ok <==> valid_spirv(bytes@),
        (r matches Ok(words) ==> words@ == spirv_words(bytes@)),
        r is Err ==> r == Err::<Vec<u32>, BootError>(BootError::ShaderModuleInvalid),
{
    let len = bytes.len();
    if len == 0 || len % 4 != 0 {
        return Err(BootError::ShaderModuleInvalid);
    }
    let w0 = (bytes[0] as u32) | ((bytes[1] as u32) << 8) | ((bytes[2] as u32) << 16) | ((bytes[3]
        as u32) << 24);
    assert(w0 == spirv_word_at(bytes@, 0));
    if w0 != SPIRV_MAGIC {
        return Err(BootError::ShaderModuleInvalid);
    }
    let word_count = len / 4;
    let mut words: Vec<u32> = Vec::new();
    let mut i: usize = 0;
    while i < word_count
        invariant
            len == bytes@.len(),
            len % 4 == 0,
            word_count == len / 4,
            i <= word_count,
            words@.len() == i,
            forall|k: int| 0 <= k < i ==> words@[k] == spirv_word_at(bytes@, k),
        decreases word_count - i,
    {
        assert(4 * (i as int) + 3 < len);
        let w = (bytes[4 * i] as u32) | ((bytes[4 * i + 1] as u32) << 8) | ((bytes[4 * i + 2]
            as u32) << 16) | ((bytes[4 * i + 3] as u32) << 24);
        assert(w == spirv_word_at(bytes@, i as int));
        words.push(w);
        i = i + 1;
    }
    proof {
        assert(words@ =~= spirv_words(bytes@));
    }
    Ok(words)
}

} // verus!
