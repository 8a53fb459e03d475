//! Shader modules and the binary code they are made from.

use vstd::prelude::*;
use crate::error::Error;

verus! {

/// The first word of every SPIR-V module.
pub const SPIRV_MAGIC: u32 = 0x0723_0203;

/// Word `i` of `bytes`, least significant byte first.
pub open spec fn le_word(bytes: Seq<u8>, i: int) -> u32 {
    (bytes[4 * i] as u32) | ((bytes[4 * i + 1] as u32) << 8u32) | ((bytes[4 * i + 2] as u32)
        << 16u32) | ((bytes[4 * i + 3] as u32) << 24u32)
}

/// Word `i` of `bytes`, most significant byte first.
pub open spec fn be_word(bytes: Seq<u8>, i: int) -> u32 {
    (bytes[4 * i + 3] as u32) | ((bytes[4 * i + 2] as u32) << 8u32) | ((bytes[4 * i + 1] as u32)
        << 16u32) | ((bytes[4 * i] as u32) << 24u32)
}

/// The words of a SPIR-V module given as bytes: the bytes taken four at a
/// time, in the byte order that makes the first word the magic number.
/// There are none where the length is no multiple of four, where there are
/// no bytes, or where the first word is the magic number in neither order.
pub open spec fn spirv_words(bytes: Seq<u8>) -> Option<Seq<u32>> {
    if bytes.len() % 4 != 0 || bytes.len() == 0 {
        None
    } else if le_word(bytes, 0) == SPIRV_MAGIC {
        Some(Seq::new((bytes.len() / 4) as nat, |i: int| le_word(bytes, i)))
    } else if be_word(bytes, 0) == SPIRV_MAGIC {
        Some(Seq::new((bytes.len() / 4) as nat, |i: int| be_word(bytes, i)))
    } else {
        None
    }
}

/// Calls `ash::util::read_spv` on a cursor over `bytes`. That function
/// refuses a length that is no multiple of four, reads the bytes as words
/// in the machine's byte order, swaps the bytes of every word where the
/// first is the swapped magic number, and refuses what then does not start
/// with the magic number. Whatever the machine's byte order, that gives the
/// words in the byte order in which the first is the magic number.
#[verifier::external_body]
fn decode_spirv(bytes: &[u8]) -> (words: Option<Vec<u32>>)
    ensures
        match spirv_words(bytes@) {
            Some(expected) => words matches Some(decoded) && decoded@ == expected,
            None => words.is_none(),
        },
{
    ash::util::read_spv(&mut std::io::Cursor::new(bytes)).ok()
}

/// A shader module.
#[derive(Clone, Copy, Debug, PartialEq, Eq, Structural)]
pub struct ShaderModule {
    handle: u64,
}

impl ShaderModule {
    /// The module's handle.
    pub closed spec fn id(&self) -> u64 {
        self.handle
    }

    /// The code of a compiled shader, from the bytes of its file. Bytes that
    /// are no SPIR-V module are an input failure.
    pub fn read_code(bytes: &[u8]) -> (outcome: Result<Vec<u32>, Error>)
        ensures
            match spirv_words(bytes@) {
                Some(expected) => outcome matches Ok(code) && code@ == expected,
                None => outcome matches Err(e) && e == Error::Io,
            },
    {
        match decode_spirv(bytes) {
            Some(code) => Ok(code),
            None => Err(Error::Io),
        }
    }

    /// The module with handle `handle`.
    pub fn new(handle: u64) -> (module: Self)
        ensures
            module.id() == handle,
    {
        Self { handle }
    }

    pub fn handle(&self) -> (handle: u64)
        ensures
            handle == self.id(),
    {
        self.handle
    }
}

} // verus!
