use vstd::prelude::*;

verus! {

/// The raw 32-bit upcall word reinterpreted as the signed reading it carries.
/// Words at or above `2^31` stand for negative readings, two's complement.
pub open spec fn reading_of_word(w: u32) -> i32 {
    if w < 0x8000_0000 {
        w as i32
    } else {
        (w as int - 0x1_0000_0000) as i32
    }
}

/// The raw 32-bit word that carries a signed reading across the upcall
/// channel: the two's-complement image of the reading.
pub open spec fn word_of_reading(r: i32) -> u32 {
    if r >= 0 {
        r as u32
    } else {
        (r as int + 0x1_0000_0000) as u32
    }
}

/// The transport encoding loses nothing: decoding the word that encodes a
/// reading gives back the reading, sign included.
pub proof fn lemma_reading_round_trip(r: i32)
    ensures
        reading_of_word(word_of_reading(r)) == r,
{
}

/// Reinterprets a raw upcall word as the signed reading it carries.
pub fn word_to_reading(w: u32) -> (r: i32)
    ensures
        r == reading_of_word(w),
{
    if w < 0x8000_0000 {
        w as i32
    } else {
        -((0xffff_ffffu32 - w) as i32) - 1
    }
}

/// Encodes a signed reading as the raw word the transport carries.
pub fn reading_to_word(r: i32) -> (w: u32)
    ensures
        w == word_of_reading(r),
{
    if r >= 0 {
        r as u32
    } else {
        0xffff_ffffu32 - ((-(r + 1)) as u32)
    }
}

} // verus!
