//! The game's compression format.
//!
//! A compressed stream is a sequence of blocks. A block opens with a token
//! that announces a run of literal bytes and a count of back-references. The
//! literal bytes follow, then the back-references, each of which repeats
//! bytes that were already written. A back-reference of length zero whose
//! length byte is zero ends the stream.
use vstd::prelude::*;
use crate::errors::{short_of, ClassError, Error};

verus! {

/// The longest run of literal bytes that one block can hold.
pub const MAX_DISTANCE: usize = 0x1011D;

/// The distance of a token whose upper five bits are `high`, and the position
/// behind the bytes that extend it, which start at `pos`.
pub open spec fn distance_from(input: Seq<u8>, high: int, pos: int) -> Result<(int, int), ClassError> {
    if high == 30 {
        if pos + 1 > input.len() {
            Err(short_of(1, input.len() as int, pos))
        } else {
            Ok((input[pos] + 30, pos + 1))
        }
    } else if high > 30 {
        if pos + 2 > input.len() {
            Err(short_of(2, input.len() as int, pos))
        } else {
            Ok((high + input[pos] + input[pos + 1] * 256 + 255, pos + 2))
        }
    } else {
        Ok((high, pos))
    }
}

/// `out` followed by `n` more bytes, each a copy of the byte that stands
/// `dist` places before the end at the time it is appended.
pub open spec fn rolling_copy(out: Seq<u8>, dist: int, n: nat) -> Seq<u8>
    decreases n,
{
    if n == 0 {
        out
    } else {
        rolling_copy(out.push(out[out.len() - 1 - dist]), dist, (n - 1) as nat)
    }
}

/// The length of the back-reference token at `pos`, and the position behind
/// its length byte if it has one. A length of zero ends the stream.
pub open spec fn length_from(input: Seq<u8>, pos: int) -> Result<(int, int), ClassError> {
    if input[pos] % 8 != 0 {
        Ok((input[pos] as int % 8, pos + 1))
    } else if pos + 2 > input.len() {
        Err(short_of(1, input.len() as int, pos + 1))
    } else if input[pos + 1] == 0 {
        Ok((0, pos + 2))
    } else {
        Ok((input[pos + 1] + 7, pos + 2))
    }
}

/// What the stream decodes to from position `pos` on, where `pending`
/// back-references of the current block are still to come and `out` has been
/// written so far.
pub open spec fn decode_from(input: Seq<u8>, pos: int, pending: nat, out: Seq<u8>) -> Result<
    Seq<u8>,
    ClassError,
>
    decreases input.len() - pos,
{
    if pos < 0 || pos >= input.len() {
        Err(short_of(1, input.len() as int, pos))
    } else if pending == 0 {
        match distance_from(input, input[pos] as int / 8, pos + 1) {
            Err(e) => Err(e),
            Ok((dist, next)) => {
                let count = if dist == MAX_DISTANCE {
                    input[pos] as int % 8
                } else {
                    input[pos] as int % 8 + 1
                };
                if next + dist > input.len() {
                    Err(short_of(dist, input.len() as int, next))
                } else {
                    decode_from(
                        input,
                        next + dist,
                        count as nat,
                        out + input.subrange(next, next + dist),
                    )
                }
            },
        }
    } else {
        match length_from(input, pos) {
            Err(e) => Err(e),
            Ok((length, after)) => {
                if length == 0 {
                    Ok(out)
                } else {
                    match distance_from(input, input[pos] as int / 8, after) {
                        Err(e) => Err(e),
                        Ok((dist, next)) => {
                            if dist >= out.len() {
                                Err(short_of(dist + 1, out.len() as int, out.len() as int))
                            } else {
                                decode_from(
                                    input,
                                    next,
                                    (pending - 1) as nat,
                                    rolling_copy(out, dist, length as nat),
                                )
                            }
                        },
                    }
                }
            },
        }
    }
}

/// What a compressed stream decodes to, or the read that it fails on.
pub open spec fn decoded(input: Seq<u8>) -> Result<Seq<u8>, ClassError> {
    decode_from(input, 0, 0, Seq::empty())
}

/// The token that opens the last block, for `r` literal bytes.
pub open spec fn final_header(r: int) -> Seq<u8> {
    if r > 0x11D {
        seq![0xF8u8, ((r - 0x11E) % 256) as u8, ((r - 0x11E) / 256) as u8]
    } else if r > 0x1D {
        seq![0xF0u8, (r - 0x1E) as u8]
    } else {
        seq![(r * 8) as u8]
    }
}

/// The compressed form of `x`: blocks of literal bytes only, each but the
/// last of the greatest length, and the two bytes that end the stream.
pub open spec fn encoded(x: Seq<u8>) -> Seq<u8>
    decreases x.len(),
{
    if x.len() > MAX_DISTANCE {
        seq![0xF8u8, 0xFFu8, 0xFFu8] + x.subrange(0, MAX_DISTANCE as int) + encoded(
            x.subrange(MAX_DISTANCE as int, x.len() as int),
        )
    } else {
        final_header(x.len() as int) + x + seq![0x00u8, 0x00u8]
    }
}

/// Appends the bytes of `src` from `from` up to `to` to `dst`.
fn append_range(dst: &mut Vec<u8>, src: &[u8], from: usize, to: usize)
    requires
        from <= to <= src@.len(),
    ensures
        final(dst)@ == old(dst)@ + src@.subrange(from as int, to as int),
{
    let mut i: usize = from;
    while i < to
        invariant
            from <= i <= to <= src@.len(),
            dst@ == old(dst)@ + src@.subrange(from as int, i as int),
        decreases to - i,
    {
        dst.push(src[i]);
        i += 1;
        assert(dst@ =~= old(dst)@ + src@.subrange(from as int, i as int));
    }
}

/// Compress data to be compatible with the game.
///
/// This does not shrink the data: it frames it in blocks of literal bytes, so
/// that the result is slightly larger than the input.
pub fn compress(decompressed: &[u8]) -> (compressed: Vec<u8>)
    ensures
        compressed@ == encoded(decompressed@),
{
    let mut compressed: Vec<u8> = Vec::new();
    let mut index: usize = 0;
    let total: usize = decompressed.len();
    proof {
        assert(decompressed@.subrange(0, total as int) =~= decompressed@);
        assert(compressed@ + encoded(decompressed@) =~= encoded(decompressed@));
    }

    // Repeat as many max-length blocks as we can
    while total - index > MAX_DISTANCE
        invariant
            index <= total,
            total == decompressed@.len(),
            compressed@ + encoded(decompressed@.subrange(index as int, total as int)) == encoded(
                decompressed@,
            ),
        decreases total - index,
    {
        let ghost before = compressed@;
        let ghost rest = decompressed@.subrange(index as int, total as int);
        compressed.push(0xF8);
        compressed.push(0xFF);
        compressed.push(0xFF);
        append_range(&mut compressed, decompressed, index, index + MAX_DISTANCE);
        proof {
            assert(rest.subrange(0, MAX_DISTANCE as int) =~= decompressed@.subrange(
                index as int,
                index + MAX_DISTANCE,
            ));
            assert(rest.subrange(MAX_DISTANCE as int, rest.len() as int) =~= decompressed@.subrange(
                index + MAX_DISTANCE,
                total as int,
            ));
            assert(compressed@ =~= before + seq![0xF8u8, 0xFFu8, 0xFFu8] + rest.subrange(
                0,
                MAX_DISTANCE as int,
            ));
            assert(compressed@ + encoded(
                decompressed@.subrange(index + MAX_DISTANCE, total as int),
            ) =~= before + encoded(rest));
        }
        index += MAX_DISTANCE;
    }

    // Add a final block with the remaining data
    let remaining: usize = total - index;
    let ghost before = compressed@;
    let ghost rest = decompressed@.subrange(index as int, total as int);
    if remaining > 0x11D {
        compressed.push(0xF8);
        let header: usize = remaining - 0x11E;
        compressed.push((header % 256) as u8);
        compressed.push((header / 256) as u8);
    } else if remaining > 0x1D {
        compressed.push(0xF0);
        compressed.push((remaining - 0x1E) as u8);
    } else {
        compressed.push((remaining * 8) as u8);
    }
    assert(compressed@ =~= before + final_header(remaining as int));
    append_range(&mut compressed, decompressed, index, total);

    // Add the special case 0 length back reference to end the stream
    compressed.push(0x00);
    compressed.push(0x00);
    assert(compressed@ =~= before + (final_header(remaining as int) + rest + seq![0x00u8, 0x00u8]));

    compressed
}

/// Reads the distance of a token whose upper five bits are `high`; the bytes
/// that extend it start at `pos`.
fn read_distance(compressed: &[u8], high: u8, pos: usize) -> (r: Result<(usize, usize), ClassError>)
    requires
        pos <= compressed@.len(),
        high < 32,
    ensures
        match r {
            Ok((dist, next)) => distance_from(compressed@, high as int, pos as int) == Ok::<
                (int, int),
                ClassError,
            >((dist as int, next as int)) && pos <= next <= compressed@.len() && dist
                <= MAX_DISTANCE,
            Err(e) => distance_from(compressed@, high as int, pos as int) == Err::<
                (int, int),
                ClassError,
            >(e),
        },
{
    let len: usize = compressed.len();
    if high == 30 {
        if len - pos < 1 {
            return Err(
                ClassError::NotEnoughBytes {
                    requested: 1,
                    file_size: len as u64,
                    offset: pos as u64,
                },
            );
        }
        let b: usize = compressed[pos] as usize;
        Ok((b + 30, pos + 1))
    } else if high > 30 {
        if len - pos < 2 {
            return Err(
                ClassError::NotEnoughBytes {
                    requested: 2,
                    file_size: len as u64,
                    offset: pos as u64,
                },
            );
        }
        let b0: usize = compressed[pos] as usize;
        let b1: usize = compressed[pos + 1] as usize;
        Ok((high as usize + b0 + b1 * 256 + 255, pos + 2))
    } else {
        Ok((high as usize, pos))
    }
}

/// Appends `n` bytes to `out`, each a copy of the byte that stands `dist`
/// places before the end at the time it is appended.
fn copy_back(out: &mut Vec<u8>, dist: usize, n: usize)
    requires
        dist < old(out)@.len(),
    ensures
        final(out)@ == rolling_copy(old(out)@, dist as int, n as nat),
{
    let mut k: usize = 0;
    while k < n
        invariant
            k <= n,
            dist < out@.len(),
            rolling_copy(out@, dist as int, (n - k) as nat) == rolling_copy(
                old(out)@,
                dist as int,
                n as nat,
            ),
        decreases n - k,
    {
        let backwards: u8 = out[out.len() - 1 - dist];
        out.push(backwards);
        k += 1;
    }
}

/// Decompress compressed game data.
///
/// A stream that reads past its own end, or that refers back before the
/// start of what it has written, is refused with the read that failed.
pub fn decompress(compressed: &[u8]) -> (r: Result<Vec<u8>, Error>)
    ensures
        match r {
            Ok(v) => decoded(compressed@) == Ok::<Seq<u8>, ClassError>(v@),
            Err(e) => decoded(compressed@) is Err && e == Error::ClassDeserialiseError(
                decoded(compressed@)->Err_0,
            ),
        },
{
    let mut decompressed: Vec<u8> = Vec::new();
    let mut index: usize = 0;
    let mut pending: usize = 0;
    let len: usize = compressed.len();

    loop
        invariant
            len == compressed@.len(),
            index <= len,
            pending <= 8,
            decode_from(compressed@, index as int, pending as nat, decompressed@) == decoded(
                compressed@,
            ),
        decreases len - index,
    {
        if index >= len {
            return Err(
                Error::ClassDeserialiseError(
                    ClassError::NotEnoughBytes {
                        requested: 1,
                        file_size: len as u64,
                        offset: index as u64,
                    },
                ),
            );
        }
        let current: u8 = compressed[index];
        if pending == 0 {
            // A token that opens a block: a run of literal bytes
            let (distance, next) = match read_distance(compressed, current / 8, index + 1) {
                Ok(found) => found,
                Err(e) => {
                    return Err(Error::ClassDeserialiseError(e));
                },
            };
            let count: usize = if distance == MAX_DISTANCE {
                (current % 8) as usize
            } else {
                (current % 8) as usize + 1
            };
            if distance > len - next {
                return Err(
                    Error::ClassDeserialiseError(
                        ClassError::NotEnoughBytes {
                            requested: distance as u64,
                            file_size: len as u64,
                            offset: next as u64,
                        },
                    ),
                );
            }
            append_range(&mut decompressed, compressed, next, next + distance);
            index = next + distance;
            pending = count;
        } else {
            // A back-reference
            let mut length: usize = (current % 8) as usize;
            let mut after: usize = index + 1;
            if length == 0 {
                if after >= len {
                    return Err(
                        Error::ClassDeserialiseError(
                            ClassError::NotEnoughBytes {
                                requested: 1,
                                file_size: len as u64,
                                offset: after as u64,
                            },
                        ),
                    );
                }
                length = compressed[after] as usize;
                after += 1;
                if length == 0 {
                    return Ok(decompressed);
                }
                length += 7;
            }
            let (distance, next) = match read_distance(compressed, current / 8, after) {
                Ok(found) => found,
                Err(e) => {
                    return Err(Error::ClassDeserialiseError(e));
                },
            };
            if distance >= decompressed.len() {
                return Err(
                    Error::ClassDeserialiseError(
                        ClassError::NotEnoughBytes {
                            requested: distance as u64 + 1,
                            file_size: decompressed.len() as u64,
                            offset: decompressed.len() as u64,
                        },
                    ),
                );
            }
            copy_back(&mut decompressed, distance, length);
            index = next;
            pending = pending - 1;
        }
    }
}

/// Whatever was compressed decompresses to itself, unless its length is a
/// positive multiple of the greatest block length: the last block is then as
/// long as a block can be, which the decoder takes for a block without a
/// back-reference, so that it reads past the bytes that end the stream.
pub proof fn lemma_decompress_compress(x: Seq<u8>)
    requires
        x.len() == 0 || x.len() % (MAX_DISTANCE as nat) != 0,
    ensures
        decoded(encoded(x)) == Ok::<Seq<u8>, ClassError>(x),
{
    let input = encoded(x);
    assert(input.subrange(0, input.len() as int) =~= input);
    lemma_decode_encoded(input, 0, Seq::empty(), x);
    assert(Seq::<u8>::empty() + x =~= x);
}

/// The bytes of a stream from `pos` on, where its tail from `pos` on is `tail`.
proof fn lemma_tail_bytes(input: Seq<u8>, pos: int, tail: Seq<u8>)
    requires
        0 <= pos <= input.len(),
        input.subrange(pos, input.len() as int) == tail,
    ensures
        tail.len() == input.len() - pos,
        forall|i: int| 0 <= i < tail.len() ==> #[trigger] tail[i] == input[pos + i],
{
}

/// One block of the greatest length decodes to its literal bytes and leaves
/// the decoder at the start of the next block.
proof fn lemma_decode_full_block(input: Seq<u8>, pos: int, out: Seq<u8>, chunk: Seq<u8>)
    requires
        0 <= pos,
        pos + 3 + MAX_DISTANCE <= input.len(),
        chunk.len() == MAX_DISTANCE,
        input[pos] == 0xF8,
        input[pos + 1] == 0xFF,
        input[pos + 2] == 0xFF,
        input.subrange(pos + 3, pos + 3 + MAX_DISTANCE) == chunk,
    ensures
        decode_from(input, pos, 0, out) == decode_from(
            input,
            pos + 3 + MAX_DISTANCE,
            0,
            out + chunk,
        ),
{
    assert(distance_from(input, 31, pos + 1) == Ok::<(int, int), ClassError>(
        (MAX_DISTANCE as int, pos + 3),
    ));
    assert(input[pos] as int / 8 == 31);
    assert(input[pos] as int % 8 == 0);
}

/// A last block of `n` literal bytes, with the bytes that end the stream,
/// decodes to those bytes.
proof fn lemma_decode_final_block(input: Seq<u8>, pos: int, out: Seq<u8>, x: Seq<u8>, h: int)
    requires
        0 <= pos,
        x.len() < MAX_DISTANCE,
        h == final_header(x.len() as int).len(),
        pos + h + x.len() + 2 <= input.len(),
        forall|i: int| 0 <= i < h ==> input[pos + i] == #[trigger] final_header(x.len() as int)[i],
        input.subrange(pos + h, pos + h + x.len()) == x,
        input[pos + h + x.len()] == 0,
        input[pos + h + x.len() + 1] == 0,
    ensures
        decode_from(input, pos, 0, out) == Ok::<Seq<u8>, ClassError>(out + x),
{
    let n = x.len() as int;
    let header = final_header(n);
    let next = pos + h;
    let end = next + n;
    assert(input[pos] == header[0]);
    if n > 0x11D {
        assert(input[pos + 1] == header[1]);
        assert(input[pos + 2] == header[2]);
        assert(input[pos] as int / 8 == 31);
        assert(input[pos + 1] as int == (n - 0x11E) % 256);
        assert(input[pos + 2] as int == (n - 0x11E) / 256);
        assert(31 + input[pos + 1] + input[pos + 2] * 256 + 255 == n);
    } else if n > 0x1D {
        assert(input[pos + 1] == header[1]);
        assert(input[pos] as int / 8 == 30);
        assert(input[pos + 1] as int + 30 == n);
    } else {
        assert(input[pos] as int == n * 8);
        assert(input[pos] as int / 8 == n);
    }
    assert(input[pos] as int % 8 == 0);
    assert(distance_from(input, input[pos] as int / 8, pos + 1) == Ok::<(int, int), ClassError>(
        (n, next),
    ));
    assert(length_from(input, end) == Ok::<(int, int), ClassError>((0, end + 2)));
    assert(decode_from(input, end, 1, out + x) == Ok::<Seq<u8>, ClassError>(out + x));
    assert(decode_from(input, pos, 0, out) == decode_from(input, end, 1, out + x));
}

/// A stream whose tail from `pos` on is the compressed form of `x` decodes,
/// from `pos` on and at the start of a block, to what was written so far
/// followed by `x`.
proof fn lemma_decode_encoded(input: Seq<u8>, pos: int, out: Seq<u8>, x: Seq<u8>)
    requires
        0 <= pos <= input.len(),
        input.subrange(pos, input.len() as int) == encoded(x),
        x.len() == 0 || x.len() % (MAX_DISTANCE as nat) != 0,
    ensures
        decode_from(input, pos, 0, out) == Ok::<Seq<u8>, ClassError>(out + x),
    decreases x.len(),
{
    let tail = encoded(x);
    let n = x.len() as int;
    lemma_tail_bytes(input, pos, tail);
    if n > MAX_DISTANCE {
        let rest = x.subrange(MAX_DISTANCE as int, n);
        let chunk = x.subrange(0, MAX_DISTANCE as int);
        let head = seq![0xF8u8, 0xFFu8, 0xFFu8] + chunk;
        assert(tail == head + encoded(rest));
        assert(head.len() == 3 + MAX_DISTANCE);
        assert(tail[0] == 0xF8 && tail[1] == 0xFF && tail[2] == 0xFF);
        let next = pos + 3;
        assert(input.subrange(next, next + MAX_DISTANCE) =~= chunk) by {
            assert forall|i: int| 0 <= i < MAX_DISTANCE implies input[next + i] == chunk[i] by {
                assert(tail[3 + i] == head[3 + i]);
            }
        }
        assert(input.subrange(next + MAX_DISTANCE, input.len() as int) =~= encoded(rest)) by {
            assert forall|i: int| 0 <= i < encoded(rest).len() implies input[next + MAX_DISTANCE
                + i] == encoded(rest)[i] by {
                assert(tail[3 + MAX_DISTANCE + i] == encoded(rest)[i]);
            }
        }
        assert(rest.len() % (MAX_DISTANCE as nat) != 0) by {
            assert((n - 0x1011D) % 0x1011D != 0) by (nonlinear_arith)
                requires
                    n % 0x1011D != 0,
            ;
        }
        let out2 = out + chunk;
        lemma_decode_full_block(input, pos, out, chunk);
        lemma_decode_encoded(input, next + MAX_DISTANCE, out2, rest);
        assert(out2 + rest =~= out + x);
    } else {
        let header = final_header(n);
        let h = header.len() as int;
        assert(tail == header + x + seq![0x00u8, 0x00u8]);
        assert(tail.len() == h + n + 2);
        assert(n < MAX_DISTANCE);
        assert forall|i: int| 0 <= i < h implies input[pos + i] == #[trigger] header[i] by {
            assert(tail[i] == header[i]);
        }
        assert(input.subrange(pos + h, pos + h + n) =~= x) by {
            assert forall|i: int| 0 <= i < n implies input[pos + h + i] == x[i] by {
                assert(tail[h + i] == x[i]);
            }
        }
        assert(tail[h + n] == 0);
        assert(tail[h + n + 1] == 0);
        lemma_decode_final_block(input, pos, out, x, h);
    }
}

} // verus!
