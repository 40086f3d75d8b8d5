//! Marshaling between typed values and machine words: arguments go into a
//! frame as words, and the one result word is read back by its declared kind.

use libc::c_uint;
use vstd::prelude::*;

verus! {

/// The result that every request is seeded with, and that comes back
/// unchanged when no supervisor is attached.
pub const DEFAULT_WORD: usize = 0;

/// A boolean as an argument word: one for true, zero for false.
pub open spec fn spec_bool_word(flag: bool) -> usize {
    if flag {
        1
    } else {
        0
    }
}

/// Encodes a boolean argument.
pub fn bool_to_word(flag: bool) -> (word: usize)
    ensures
        word == spec_bool_word(flag),
{
    if flag {
        1
    } else {
        0
    }
}

/// A word read as a boolean: any nonzero word is true.
pub open spec fn spec_word_bool(word: usize) -> bool {
    word != 0
}

/// Decodes a boolean: any nonzero word is true.
pub fn word_to_bool(word: usize) -> (flag: bool)
    ensures
        flag == spec_word_bool(word),
{
    word != 0
}

/// The low 32 bits of a word, which is how a thread identifier is read from
/// a result.
pub open spec fn spec_thread_id(word: usize) -> c_uint {
    (word as int % 0x1_0000_0000) as c_uint
}

/// Encodes a thread identifier as a word of the same value.
pub fn thread_id_to_word(id: c_uint) -> (word: usize)
    ensures
        word as int == id as int,
{
    id as usize
}

/// Decodes a thread identifier: the word's low 32 bits.
pub fn word_to_thread_id(word: usize) -> (id: c_uint)
    ensures
        id == spec_thread_id(word),
        id as int == word as int % 0x1_0000_0000,
{
    let wide: u64 = word as u64;
    let low: u64 = wide & 0xffff_ffff;
    proof {
        assert(wide & 0xffff_ffff == wide % 0x1_0000_0000) by (bit_vector);
    }
    low as c_uint
}

/// An optional payload read from a result word: zero stands for absence.
pub open spec fn spec_optional(word: usize) -> Option<usize> {
    if word == 0 {
        None
    } else {
        Some(word)
    }
}

/// Decodes an optional result: `None` for the zero word, otherwise the word
/// itself as the payload.
pub fn word_to_optional(word: usize) -> (payload: Option<usize>)
    ensures
        payload == spec_optional(word),
        payload is None <==> word == 0,
        payload is Some ==> payload->0 == word && word != 0,
{
    if word == 0 {
        None
    } else {
        Some(word)
    }
}

/// Encodes an optional payload: zero for `None`.
pub fn optional_to_word(payload: Option<usize>) -> (word: usize)
    ensures
        payload is None ==> word == 0,
        payload is Some ==> word == payload->0,
{
    match payload {
        None => 0,
        Some(w) => w,
    }
}

/// The address and the length in bytes of one value of type `T` that lies at
/// `addr`, for the requests that take a range of memory.
pub fn extent_of<T>(addr: usize) -> (range: (usize, usize))
    ensures
        range.0 == addr,
        range.1 as nat == vstd::layout::size_of::<T>(),
{
    (addr, core::mem::size_of::<T>())
}

/// A boolean survives the way through a word.
pub proof fn lemma_bool_round_trip(flag: bool)
    ensures
        spec_word_bool(spec_bool_word(flag)) == flag,
{
}

/// A thread identifier survives the way through a word.
pub proof fn lemma_thread_id_round_trip(id: c_uint)
    ensures
        spec_thread_id(id as usize) == id,
{
}

/// A present payload survives the way through a word, and absence does too;
/// only a payload of zero cannot be told from absence.
pub proof fn lemma_optional_round_trip(payload: Option<usize>)
    requires
        payload != Some(0usize),
    ensures
        payload is None ==> spec_optional(0) == payload,
        payload is Some ==> spec_optional(payload->0) == payload,
{
}

/// The zero word decodes to absence and every other word to a payload that
/// is the word itself.
pub proof fn lemma_optional_convention(word: usize)
    ensures
        word == 0 ==> spec_optional(word) is None,
        word != 0 ==> spec_optional(word) == Some(word),
{
}

} // verus!
