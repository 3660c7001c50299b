//! Structural validation of kernel bytecode.
//!
//! Kernel bytecode is a sequence of 32-bit words.  A byte stream is
//! decodable when its length is a whole number of words and its first
//! word, read little-endian, is the bytecode magic number in either byte
//! order; a big-endian stream is byte-swapped word by word.  Anything
//! beyond this structural header — version, instructions — is left to the
//! device driver, which rejects an incompatible module at kernel creation.

use vstd::prelude::*;

verus! {

/// Magic number that opens a bytecode stream, as read on a little-endian
/// host.
pub const MAGIC_LE: u32 = 0x07230203;

/// The same magic number with its bytes reversed: the mark of a stream
/// produced on a big-endian host.
pub const MAGIC_BE: u32 = 0x03022307;

/// The word formed from four consecutive bytes, least significant first.
pub open spec fn le_word_at(bytes: Seq<u8>, i: int) -> u32 {
    (bytes[4 * i] + bytes[4 * i + 1] * 0x100 + bytes[4 * i + 2] * 0x10000 + bytes[4 * i + 3]
        * 0x1000000) as u32
}

/// The stream read as little-endian words.
pub open spec fn le_words(bytes: Seq<u8>) -> Seq<u32> {
    Seq::new((bytes.len() / 4) as nat, |i: int| le_word_at(bytes, i))
}

/// A word with its four bytes reversed.
pub open spec fn byte_swapped(w: u32) -> u32 {
    ((w % 0x100) * 0x1000000 + ((w / 0x100) % 0x100) * 0x10000 + ((w / 0x10000) % 0x100) * 0x100
        + w / 0x1000000) as u32
}

/// A byte stream is structurally valid bytecode when it is a nonempty
/// whole number of words and opens with the magic in either byte order.
pub open spec fn decode_ok(bytes: Seq<u8>) -> bool {
    &&& bytes.len() % 4 == 0
    &&& bytes.len() >= 4
    &&& (le_words(bytes)[0] == MAGIC_LE || le_words(bytes)[0] == MAGIC_BE)
}

/// The words a valid stream decodes to: the little-endian reading,
/// byte-swapped throughout when the stream was big-endian.
pub open spec fn decoded_words(bytes: Seq<u8>) -> Seq<u32>
    recommends
        decode_ok(bytes),
{
    if le_words(bytes)[0] == MAGIC_LE {
        le_words(bytes)
    } else {
        le_words(bytes).map_values(|w: u32| byte_swapped(w))
    }
}

/// Read the word starting at byte `4 * i`.
fn read_word(bytes: &[u8], i: usize) -> (w: u32)
    requires
        4 * i + 4 <= bytes@.len(),
    ensures
        w == le_word_at(bytes@, i as int),
{
    let blen = bytes.len();
    assert(4 * i + 4 <= blen);
    let b0 = bytes[4 * i] as u32;
    let b1 = bytes[4 * i + 1] as u32;
    let b2 = bytes[4 * i + 2] as u32;
    let b3 = bytes[4 * i + 3] as u32;
    b0 + b1 * 0x100 + b2 * 0x10000 + b3 * 0x1000000
}

/// Reverse the bytes of one word.
fn swap_word(w: u32) -> (r: u32)
    ensures
        r == byte_swapped(w),
{
    (w % 0x100) * 0x1000000 + ((w / 0x100) % 0x100) * 0x10000 + ((w / 0x10000) % 0x100) * 0x100
        + w / 0x1000000
}

/// Decode a byte stream to bytecode words; `None` when the stream is not
/// a whole number of words or does not open with the magic number.
pub fn decode_words(bytes: &[u8]) -> (r: Option<Vec<u32>>)
    ensures
        r is Some <==> decode_ok(bytes@),
        r is Some ==> r.unwrap()@ == decoded_words(bytes@),
{
    let len = bytes.len();
    if len % 4 != 0 || len == 0 {
        return None;
    }
    let n = len / 4;
    let mut words: Vec<u32> = Vec::new();
    let mut i: usize = 0;
    while i < n
        invariant
            i <= n,
            n == bytes@.len() / 4,
            4 * n <= bytes@.len(),
            words@.len() == i,
            forall|j: int| 0 <= j < i ==> words@[j] == le_word_at(bytes@, j),
        decreases n - i,
    {
        let w = read_word(bytes, i);
        words.push(w);
        i = i + 1;
    }
    assert(words@ =~= le_words(bytes@));
    if words[0] == MAGIC_LE {
        Some(words)
    } else if words[0] == MAGIC_BE {
        let ghost le = words@;
        let mut j: usize = 0;
        while j < n
            invariant
                j <= n,
                n == le.len(),
                words@.len() == n,
                forall|k: int| 0 <= k < j ==> words@[k] == byte_swapped(le[k]),
                forall|k: int| j <= k < n ==> words@[k] == le[k],
            decreases n - j,
        {
            let w = words[j];
            let s = swap_word(w);
            words.set(j, s);
            j = j + 1;
        }
        assert(words@ =~= le.map_values(|w: u32| byte_swapped(w)));
        Some(words)
    } else {
        None
    }
}

} // verus!
