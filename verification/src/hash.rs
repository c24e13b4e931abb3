//! The hash that the game uses to identify classes and files by name.
use vstd::prelude::*;

verus! {

/// A character with the ASCII capital letters mapped to small letters.
pub open spec fn ascii_lower(c: char) -> char {
    if 'A' <= c && c <= 'Z' {
        ((c as u8) + 32) as char
    } else {
        c
    }
}

/// The hash after one more character: the bits of `a` rotated left by five
/// places, then combined by exclusive or with the lower-cased character.
pub open spec fn hash_step(a: u32, c: char) -> u32 {
    ((a >> 27) | (a << 5)) ^ (ascii_lower(c) as u32)
}

/// The hash of a sequence of characters, folded from the left, starting
/// from zero.
pub open spec fn hash_of(name: Seq<char>) -> u32
    decreases name.len(),
{
    if name.len() == 0 {
        0
    } else {
        hash_step(hash_of(name.drop_last()), name.last())
    }
}

/// Lower-cases an ASCII capital letter and leaves any other character.
fn lower(c: char) -> (r: char)
    ensures
        r == ascii_lower(c),
{
    if 'A' <= c && c <= 'Z' {
        let b: u8 = c as u8;
        (b + 32) as char
    } else {
        c
    }
}

/// Hashing algorithm used throughout the game. Creates a 4-byte code from the
/// given input `name`.
pub fn hash(name: &str) -> (r: u32)
    ensures
        r == hash_of(name@),
{
    let mut a: u32 = 0;
    for c in it: name.chars()
        invariant
            it.seq() == name@,
            a == hash_of(name@.take(it.index() as int)),
    {
        proof {
            assert(name@.take(it.index() + 1).drop_last() =~= name@.take(it.index() as int));
        }
        a = ((a >> 27) | (a << 5)) ^ (lower(c) as u32);
    }
    proof {
        assert(name@.take(name@.len() as int) =~= name@);
    }
    a
}

} // verus!
