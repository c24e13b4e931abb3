//! Helpers for objects that hold other objects: tables of offsets, and the
//! objects that the offsets name.
use vstd::prelude::*;
use crate::classes::{SerialisedShrekSuperSlamGameObject, WriteableShrekSuperSlamGameObject};
use crate::console::Console;
use crate::errors::{not_enough, too_few_bytes, Error};
use crate::files::bin::bin::{object_error, Bin};
use crate::util::{get_word, word_at};

verus! {

/// The error of reading a table of `count` offsets that begins at `table`
/// behind the header, if there is one: the table must lie within the buffer.
pub open spec fn offsets_error(raw: Seq<u8>, table: u32, count: u32) -> Option<Error> {
    if table + 0x40 + 4 * count > raw.len() {
        Some(not_enough(4 * count, raw.len() as int, table + 0x40))
    } else {
        None
    }
}

/// The `count` offsets of the table that begins at `table` behind the
/// header.
pub open spec fn offsets_of(raw: Seq<u8>, c: Console, table: u32, count: u32) -> Seq<u32> {
    Seq::new(count as nat, |i: int| word_at(raw, c, table + 0x40 + 4 * i))
}

/// The error of reading objects of class `T` at the first `n` of the given
/// offsets, in their order, if there is one.
#[verifier::opaque]
pub open spec fn objects_error<T: SerialisedShrekSuperSlamGameObject>(
    raw: Seq<u8>,
    c: Console,
    offsets: Seq<u32>,
    n: nat,
) -> Option<Error>
    decreases n,
{
    if n == 0 {
        None
    } else {
        match objects_error::<T>(raw, c, offsets, (n - 1) as nat) {
            Some(e) => Some(e),
            None => object_error::<T>(raw, c, offsets[n - 1]),
        }
    }
}

/// Whether the objects are those that stand at the given offsets behind the
/// header, one for each offset.
pub open spec fn are_objects_at<T: SerialisedShrekSuperSlamGameObject>(
    objects: Seq<T>,
    raw: Seq<u8>,
    c: Console,
    offsets: Seq<u32>,
) -> bool {
    &&& objects.len() == offsets.len()
    &&& forall|i: int|
        0 <= i < objects.len() ==> (#[trigger] objects[i]).is_read_of(raw, c, offsets[i] + 0x40)
}

/// The error of reading the objects of class `T` that a table of offsets
/// names, if there is one: the table is read first, then each object.
pub open spec fn array_error<T: SerialisedShrekSuperSlamGameObject>(
    raw: Seq<u8>,
    c: Console,
    table: u32,
    count: u32,
) -> Option<Error> {
    match offsets_error(raw, table, count) {
        Some(e) => Some(e),
        None => objects_error::<T>(raw, c, offsets_of(raw, c, table, count), count as nat),
    }
}

/// The error of reading an object of class `T` that may be absent, if there
/// is one. An offset of zero stands for an absent object.
pub open spec fn optional_error<T: SerialisedShrekSuperSlamGameObject>(
    raw: Seq<u8>,
    c: Console,
    pointer: u32,
) -> Option<Error> {
    if pointer == 0 {
        None
    } else {
        object_error::<T>(raw, c, pointer)
    }
}

/// Whether `object` is what the offset `pointer` names: nothing for zero,
/// else the object at that offset behind the header.
pub open spec fn is_optional_at<T: SerialisedShrekSuperSlamGameObject>(
    object: Option<T>,
    raw: Seq<u8>,
    c: Console,
    pointer: u32,
) -> bool {
    match object {
        Some(o) => pointer != 0 && o.is_read_of(raw, c, pointer + 0x40),
        None => pointer == 0,
    }
}

/// What writing `element` at `offset` behind the header makes of `raw`, and
/// the error that it ends in, if it ends in one. Nothing is written where
/// the object would not lie within the buffer.
pub open spec fn element_written<T: WriteableShrekSuperSlamGameObject>(
    element: T,
    raw: Seq<u8>,
    c: Console,
    offset: u32,
) -> (Seq<u8>, Option<Error>) {
    if offset + 0x40 + T::class_size() > raw.len() {
        (raw, Some(not_enough(T::class_size() as int, raw.len() as int, offset as int)))
    } else {
        element.written(raw, c, offset + 0x40)
    }
}

/// What writing the first `n` elements makes of `raw`, each at the offset
/// with its number, and the error that it ends in, if it ends in one.
/// Nothing more is written after an error.
#[verifier::opaque]
pub open spec fn elements_written<T: WriteableShrekSuperSlamGameObject>(
    elements: Seq<T>,
    offsets: Seq<u32>,
    raw: Seq<u8>,
    c: Console,
    n: nat,
) -> (Seq<u8>, Option<Error>)
    decreases n,
{
    if n == 0 {
        (raw, None)
    } else {
        let before = elements_written(elements, offsets, raw, c, (n - 1) as nat);
        if before.1 is Some {
            before
        } else {
            element_written(elements[n - 1], before.0, c, offsets[n - 1])
        }
    }
}

/// What writing an element that may be absent makes of `raw`, at an offset
/// that may be unknown: nothing is written unless both are there.
pub open spec fn optional_written<T: WriteableShrekSuperSlamGameObject>(
    element: Option<T>,
    offset: Option<u32>,
    raw: Seq<u8>,
    c: Console,
) -> (Seq<u8>, Option<Error>) {
    match (element, offset) {
        (Some(e), Some(o)) => element_written(e, raw, c, o),
        _ => (raw, None),
    }
}

/// The smaller of two numbers.
pub open spec fn smaller(a: nat, b: nat) -> nat {
    if a <= b {
        a
    } else {
        b
    }
}

/// How the error of reading `n + 1` objects comes from that of reading `n`
/// objects.
pub proof fn lemma_objects_error_step<T: SerialisedShrekSuperSlamGameObject>(
    raw: Seq<u8>,
    c: Console,
    offsets: Seq<u32>,
    n: nat,
)
    ensures
        objects_error::<T>(raw, c, offsets, 0) is None,
        objects_error::<T>(raw, c, offsets, n + 1) == match objects_error::<T>(
            raw,
            c,
            offsets,
            n,
        ) {
            Some(e) => Some(e),
            None => object_error::<T>(raw, c, offsets[n as int]),
        },
{
    reveal_with_fuel(objects_error, 2);
}

/// An error among the first `n` objects is the error among the first `m`
/// objects, for `m` no less than `n`.
pub proof fn lemma_objects_error_stays<T: SerialisedShrekSuperSlamGameObject>(
    raw: Seq<u8>,
    c: Console,
    offsets: Seq<u32>,
    n: nat,
    m: nat,
)
    requires
        n <= m,
        objects_error::<T>(raw, c, offsets, n) is Some,
    ensures
        objects_error::<T>(raw, c, offsets, m) == objects_error::<T>(raw, c, offsets, n),
    decreases m - n,
{
    if n < m {
        lemma_objects_error_stays::<T>(raw, c, offsets, n, (m - 1) as nat);
        lemma_objects_error_step::<T>(raw, c, offsets, (m - 1) as nat);
    }
}

/// How writing `n + 1` elements comes from writing `n` elements.
pub proof fn lemma_elements_written_step<T: WriteableShrekSuperSlamGameObject>(
    elements: Seq<T>,
    offsets: Seq<u32>,
    raw: Seq<u8>,
    c: Console,
    n: nat,
)
    ensures
        elements_written(elements, offsets, raw, c, 0) == (raw, None::<Error>),
        elements_written(elements, offsets, raw, c, n + 1) == ({
            let before = elements_written(elements, offsets, raw, c, n);
            if before.1 is Some {
                before
            } else {
                element_written(elements[n as int], before.0, c, offsets[n as int])
            }
        }),
{
    reveal_with_fuel(elements_written, 2);
}

/// Writing an object back to the offset it was read from changes nothing.
pub proof fn lemma_element_written_same<T: WriteableShrekSuperSlamGameObject>(
    element: T,
    raw: Seq<u8>,
    c: Console,
    offset: u32,
)
    requires
        object_error::<T>(raw, c, offset) is None,
        element.is_read_of(raw, c, offset + 0x40),
        T::canonical(raw, c, offset + 0x40),
    ensures
        element_written(element, raw, c, offset) == (raw, None::<Error>),
{
    element.lemma_write_read(raw, c, offset + 0x40);
}

/// Writing objects back to the offsets they were read from changes nothing.
pub proof fn lemma_elements_written_same<T: WriteableShrekSuperSlamGameObject>(
    elements: Seq<T>,
    offsets: Seq<u32>,
    raw: Seq<u8>,
    c: Console,
    n: nat,
)
    requires
        n <= elements.len(),
        n <= offsets.len(),
        objects_error::<T>(raw, c, offsets, n) is None,
        forall|i: int| 0 <= i < n ==> (#[trigger] elements[i]).is_read_of(raw, c, offsets[i] + 0x40),
        forall|i: int| 0 <= i < n ==> T::canonical(raw, c, #[trigger] offsets[i] + 0x40),
    ensures
        elements_written(elements, offsets, raw, c, n) == (raw, None::<Error>),
    decreases n,
{
    lemma_elements_written_step(elements, offsets, raw, c, (n - 1) as nat);
    if n > 0 {
        lemma_objects_error_step::<T>(raw, c, offsets, (n - 1) as nat);
        lemma_elements_written_same(elements, offsets, raw, c, (n - 1) as nat);
        assert(T::canonical(raw, c, offsets[n - 1] + 0x40));
        lemma_element_written_same(elements[n - 1], raw, c, offsets[n - 1]);
    }
}

/// Reads the table of `count` offsets that begins at `table` behind the
/// header.
pub fn read_offsets(raw: &[u8], c: Console, table: u32, count: u32) -> (r: Result<Vec<u32>, Error>)
    ensures
        match r {
            Ok(v) => offsets_error(raw@, table, count) is None && v@ == offsets_of(
                raw@,
                c,
                table,
                count,
            ),
            Err(e) => offsets_error(raw@, table, count) == Some(e),
        },
{
    let len: u64 = raw.len() as u64;
    let begin: u64 = table as u64 + 0x40;
    let size: u64 = count as u64 * 4;
    if size > len || begin > len - size {
        return Err(too_few_bytes(size, len, begin));
    }
    let mut offsets: Vec<u32> = Vec::new();
    let mut i: u32 = 0;
    while i < count
        invariant
            i <= count,
            len == raw@.len(),
            begin == table + 0x40,
            begin + 4 * count <= len,
            len <= usize::MAX,
            offsets@.len() == i,
            forall|k: int| 0 <= k < i ==> offsets@[k] == word_at(raw@, c, table + 0x40 + 4 * k),
        decreases count - i,
    {
        let entry: usize = (begin + i as u64 * 4) as usize;
        offsets.push(get_word(raw, c, entry));
        i += 1;
    }
    assert(offsets@ =~= offsets_of(raw@, c, table, count));
    Ok(offsets)
}

/// Reads the objects of class `T` at the given offsets, in their order.
pub fn read_objects<T>(bin: &Bin, offsets: &Vec<u32>) -> (r: Result<Vec<T>, Error>) where
    T: SerialisedShrekSuperSlamGameObject,

    ensures
        match r {
            Ok(v) => objects_error::<T>(bin.raw@, bin.console, offsets@, offsets@.len()) is None
                && are_objects_at(v@, bin.raw@, bin.console, offsets@),
            Err(e) => objects_error::<T>(bin.raw@, bin.console, offsets@, offsets@.len()) == Some(
                e,
            ),
        },
{
    let count: usize = offsets.len();
    let mut objects: Vec<T> = Vec::new();
    let mut i: usize = 0;
    proof {
        lemma_objects_error_step::<T>(bin.raw@, bin.console, offsets@, 0);
    }
    while i < count
        invariant
            count == offsets@.len(),
            i <= count,
            objects@.len() == i,
            objects_error::<T>(bin.raw@, bin.console, offsets@, i as nat) is None,
            forall|k: int|
                0 <= k < i ==> (#[trigger] objects@[k]).is_read_of(
                    bin.raw@,
                    bin.console,
                    offsets@[k] + 0x40,
                ),
        decreases count - i,
    {
        proof {
            lemma_objects_error_step::<T>(bin.raw@, bin.console, offsets@, i as nat);
        }
        match bin.get_object_from_offset::<T>(offsets[i]) {
            Ok(object) => {
                objects.push(object);
            },
            Err(e) => {
                proof {
                    lemma_objects_error_stays::<T>(
                        bin.raw@,
                        bin.console,
                        offsets@,
                        (i + 1) as nat,
                        count as nat,
                    );
                }
                return Err(e);
            },
        }
        i += 1;
    }
    Ok(objects)
}

/// The error of reading the word at `first` and then the word at `second`,
/// if there is one.
pub open spec fn words_error(raw: Seq<u8>, first: int, second: int) -> Option<Error> {
    if first + 4 > raw.len() {
        Some(not_enough(4, raw.len() as int, first))
    } else if second + 4 > raw.len() {
        Some(not_enough(4, raw.len() as int, second))
    } else {
        None
    }
}

/// Utility function to read an array of types from a serialised game
/// object: the word at `array_offset` of the object is the offset of a table
/// of offsets, the word at `array_count_offset` their number. The words and
/// the table are read as the given `console` stores them.
pub fn construct_array<T>(
    bin: &Bin,
    initial_object_offset: usize,
    console: Console,
    array_offset: usize,
    array_count_offset: usize,
) -> (r: Result<Vec<T>, Error>) where T: SerialisedShrekSuperSlamGameObject
    ensures
        ({
            let first = initial_object_offset + array_offset;
            let second = initial_object_offset + array_count_offset;
            let table = word_at(bin.raw@, console, first);
            let count = word_at(bin.raw@, console, second);
            let offsets = offsets_of(bin.raw@, console, table, count);
            let failed = match words_error(bin.raw@, first, second) {
                Some(e) => Some(e),
                None => match offsets_error(bin.raw@, table, count) {
                    Some(e) => Some(e),
                    None => objects_error::<T>(bin.raw@, bin.console, offsets, count as nat),
                },
            };
            match r {
                Ok(v) => failed is None && are_objects_at(v@, bin.raw@, bin.console, offsets),
                Err(e) => failed == Some(e),
            }
        }),
{
    let raw = bin.raw.as_slice();
    let len: u64 = raw.len() as u64;
    let first: u128 = initial_object_offset as u128 + array_offset as u128;
    let second: u128 = initial_object_offset as u128 + array_count_offset as u128;
    if first + 4 > len as u128 {
        return Err(
            too_few_bytes(
                4,
                len,
                #[verifier::truncate]
                (first as u64),
            ),
        );
    }
    if second + 4 > len as u128 {
        return Err(
            too_few_bytes(
                4,
                len,
                #[verifier::truncate]
                (second as u64),
            ),
        );
    }
    let list_offset = get_word(raw, console, first as usize);
    let list_count = get_word(raw, console, second as usize);
    let offsets = read_offsets(raw, console, list_offset, list_count)?;
    read_objects::<T>(bin, &offsets)
}

/// Utility function to construct an optional type from a serialised game
/// object: the word at `object_pointer_offset` of the object is the offset
/// of the other object, or zero if there is none. The word is read as the
/// given `console` stores it.
pub fn construct_optional_type<T>(
    bin: &Bin,
    initial_object_offset: usize,
    console: Console,
    object_pointer_offset: usize,
) -> (r: Result<Option<T>, Error>) where T: SerialisedShrekSuperSlamGameObject
    ensures
        ({
            let place = initial_object_offset + object_pointer_offset;
            let pointer = word_at(bin.raw@, console, place);
            let failed = if place + 4 > bin.raw@.len() {
                Some(not_enough(4, bin.raw@.len() as int, place))
            } else {
                optional_error::<T>(bin.raw@, bin.console, pointer)
            };
            match r {
                Ok(o) => failed is None && is_optional_at(o, bin.raw@, bin.console, pointer),
                Err(e) => failed == Some(e),
            }
        }),
{
    let raw = bin.raw.as_slice();
    let len: u64 = raw.len() as u64;
    let place: u128 = initial_object_offset as u128 + object_pointer_offset as u128;
    if place + 4 > len as u128 {
        return Err(
            too_few_bytes(
                4,
                len,
                #[verifier::truncate]
                (place as u64),
            ),
        );
    }
    let object_offset = get_word(raw, console, place as usize);
    let object = if object_offset != 0 {
        Some(bin.get_object_from_offset::<T>(object_offset)?)
    } else {
        None
    };
    Ok(object)
}

/// Writes `element` at `offset` behind the header, unless it would not lie
/// within the buffer.
pub fn write_element<T>(bin: &mut Bin, element: &T, offset: u32) -> (r: Result<(), Error>) where
    T: WriteableShrekSuperSlamGameObject,

    ensures
        final(bin).same_but_raw(*old(bin)),
        final(bin).raw@.len() == old(bin).raw@.len(),
        final(bin).raw@ == element_written(*element, old(bin).raw@, old(bin).console, offset).0,
        match r {
            Ok(_) => element_written(*element, old(bin).raw@, old(bin).console, offset).1 is None,
            Err(e) => element_written(*element, old(bin).raw@, old(bin).console, offset).1
                == Some(e),
        },
{
    let begin: u64 = offset as u64 + 0x40;
    let len: u64 = bin.raw.len() as u64;
    let size: u64 = T::size() as u64;
    if size > len || begin > len - size {
        return Err(too_few_bytes(size, len, offset as u64));
    }
    element.write(bin, begin as usize)
}

/// Writes each element at the offset with its number behind the header, as
/// far as there are both, and stops at the first error.
pub fn write_elements<T>(bin: &mut Bin, elements: &Vec<T>, offsets: &Vec<u32>) -> (r: Result<
    (),
    Error,
>) where T: WriteableShrekSuperSlamGameObject
    ensures
        final(bin).same_but_raw(*old(bin)),
        final(bin).raw@.len() == old(bin).raw@.len(),
        ({
            let outcome = elements_written(
                elements@,
                offsets@,
                old(bin).raw@,
                old(bin).console,
                smaller(elements@.len(), offsets@.len()),
            );
            &&& final(bin).raw@ == outcome.0
            &&& match r {
                Ok(_) => outcome.1 is None,
                Err(e) => outcome.1 == Some(e),
            }
        }),
{
    let count: usize = if elements.len() <= offsets.len() {
        elements.len()
    } else {
        offsets.len()
    };
    let mut i: usize = 0;
    proof {
        lemma_elements_written_step(elements@, offsets@, bin.raw@, bin.console, 0);
    }
    while i < count
        invariant
            count == smaller(elements@.len(), offsets@.len()),
            i <= count,
            bin.same_but_raw(*old(bin)),
            bin.raw@.len() == old(bin).raw@.len(),
            elements_written(elements@, offsets@, old(bin).raw@, old(bin).console, i as nat) == (
                bin.raw@,
                None::<Error>,
            ),
        decreases count - i,
    {
        proof {
            lemma_elements_written_step(
                elements@,
                offsets@,
                old(bin).raw@,
                old(bin).console,
                i as nat,
            );
        }
        match write_element(bin, &elements[i], offsets[i]) {
            Ok(_) => {},
            Err(e) => {
                proof {
                    lemma_elements_written_error_stays(
                        elements@,
                        offsets@,
                        old(bin).raw@,
                        old(bin).console,
                        (i + 1) as nat,
                        count as nat,
                    );
                }
                return Err(e);
            },
        }
        i += 1;
    }
    Ok(())
}

/// Whatever the first `n` elements end in with an error, the first `m`
/// elements end in, for `m` no less than `n`.
pub proof fn lemma_elements_written_error_stays<T: WriteableShrekSuperSlamGameObject>(
    elements: Seq<T>,
    offsets: Seq<u32>,
    raw: Seq<u8>,
    c: Console,
    n: nat,
    m: nat,
)
    requires
        n <= m,
        elements_written(elements, offsets, raw, c, n).1 is Some,
    ensures
        elements_written(elements, offsets, raw, c, m) == elements_written(
            elements,
            offsets,
            raw,
            c,
            n,
        ),
    decreases m - n,
{
    if n < m {
        lemma_elements_written_error_stays(elements, offsets, raw, c, n, (m - 1) as nat);
        lemma_elements_written_step(elements, offsets, raw, c, (m - 1) as nat);
    }
}

} // verus!
