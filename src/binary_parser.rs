use vstd::prelude::*;

use crate::model::written_at;

verus! {

/// Why a program image could not be placed in memory.
#[derive(Clone, Copy, Debug, PartialEq, Eq, Structural)]
pub enum LoadError {
    /// The image is larger than the memory from the load offset to the end.
    BinaryTooBig,
}

/// Copies `binary` into `memory_slice` from `offset` on. When it does not fit
/// in the bytes from `offset` to the end, memory is left as it was.
pub fn copy_binary_to_memory(binary: &[u8], memory_slice: &mut [u8], offset: usize) -> (r: Result<
    (),
    LoadError,
>)
    requires
        offset <= old(memory_slice)@.len(),
    ensures
        r is Ok <==> binary@.len() <= old(memory_slice)@.len() - offset,
        r is Ok ==> final(memory_slice)@ == written_at(old(memory_slice)@, binary@, offset as int),
        r is Err ==> final(memory_slice)@ == old(memory_slice)@,
{
    if binary.len() > memory_slice.len() - offset {
        return Err(LoadError::BinaryTooBig);
    }
    let ghost start = memory_slice@;
    let size = memory_slice.len();
    let mut k: usize = 0;
    while k < binary.len()
        invariant
            k <= binary@.len(),
            offset + binary@.len() <= start.len(),
            memory_slice@.len() == start.len(),
            start.len() == size,
            memory_slice@ == written_at(start, binary@.subrange(0, k as int), offset as int),
        decreases binary@.len() - k,
    {
        memory_slice[offset + k] = binary[k];
        k = k + 1;
        assert(memory_slice@ =~= written_at(start, binary@.subrange(0, k as int), offset as int));
    }
    assert(binary@.subrange(0, k as int) =~= binary@);
    Ok(())
}

/// The big-endian 16-bit words of `bytes`, read two bytes at a time.
pub open spec fn words_of(bytes: Seq<u8>) -> Seq<u16> {
    Seq::new(bytes.len() / 2, |k: int| (bytes[2 * k] as int * 256 + bytes[2 * k + 1] as int) as u16)
}

/// Reads `bytes` as a sequence of big-endian 16-bit words; `None` when the
/// length is odd.
pub fn decode_words(bytes: &[u8]) -> (r: Option<Vec<u16>>)
    ensures
        r is Some <==> bytes@.len() % 2 == 0,
        r matches Some(words) ==> words@ == words_of(bytes@),
{
    if bytes.len() % 2 != 0 {
        return None;
    }
    let mut words: Vec<u16> = Vec::new();
    let mut k: usize = 0;
    while k < bytes.len() / 2
        invariant
            bytes@.len() % 2 == 0,
            k <= bytes@.len() / 2,
            words@ == words_of(bytes@).subrange(0, k as int),
        decreases bytes@.len() / 2 - k,
    {
        let word: u16 = (bytes[2 * k] as u16) * 256 + (bytes[2 * k + 1] as u16);
        words.push(word);
        k = k + 1;
        assert(words@ =~= words_of(bytes@).subrange(0, k as int));
    }
    assert(words@ =~= words_of(bytes@));
    Some(words)
}

} // verus!
