//! Reading and patching a container.
use vstd::prelude::*;
use vstd::slice::slice_subrange;
use crate::classes::registry::{class_name_of, hash_lookup};
use crate::classes::db::{entries_begin, entries_count, GfDb};
use crate::classes::util::{lemma_objects_error_stays, lemma_objects_error_step, objects_error};
use crate::classes::{
    is_resolved, resolve_error, AttackMoveRegion, AttackMoveType, BehaviorAiFighting,
    BehaviorFightingControlShrek, DynamicThrowable, EffectStringReference, Entity, EventSequence,
    GameWorld, ItemSpawner, LoadingScreen, LocalizedString, LookAtData, ObjectInitializer,
    PhysicsFighting, PotionType, PowerupType, ProjectileType, RenderSpawn, ScriptDb,
    SerialisedShrekSuperSlamGameObject, ShrekSuperSlamObject, Spitter, SpitterKeyframe,
    WeaponType, WriteableShrekSuperSlamGameObject,
};
use crate::console::Console;
use crate::errors::{not_enough, too_few_bytes, ClassError, Error};
use crate::files::bin::dependency::{is_dependency_at, BinDependency, STRLEN};
use crate::files::bin::header::{
    header_bytes, header_of, lemma_header_bytes_of, reserved_clear, BinHeader,
};
use crate::files::bin::offset4type::{is_offset4_at, BinOffset4Struct};
use crate::files::bin::section::{section_at, BinSection};
use crate::latin1::{decode, latin1_chars};
use crate::util::{checked_word, get_word, get_word_checked, word_at};

verus! {

/// Thin structure that represents the beginning of a serialised game object
/// within a container.
///
/// Use the `offset` field as a parameter to [`Bin::get_object_from_offset`]
/// to get the full deserialised object from the container.
#[derive(Clone, Copy, Debug)]
pub struct BinObject {
    /// The hash of the object
    pub hash: u32,
    /// The name of the object
    pub name: &'static str,
    /// The offset of the object within the file
    pub offset: u32,
}

/// The error for a hash that belongs to no known class.
pub open spec fn unknown_class(hash: u32) -> Error {
    Error::ClassDeserialiseError(ClassError::UnknownClass { hash })
}

/// The error for a hash that is not that of the expected class.
pub open spec fn incorrect_type(hash: u32) -> Error {
    Error::ClassDeserialiseError(ClassError::IncorrectType { hash })
}

/// The object that begins at `offset` behind the header: its hash is read
/// there and looked up in the register of classes.
pub open spec fn stub_at(raw: Seq<u8>, c: Console, offset: u32) -> Result<BinObject, Error> {
    match checked_word(raw, c, offset + 0x40) {
        Err(e) => Err(e),
        Ok(hash) => match class_name_of(hash) {
            Some(name) => Ok(BinObject { hash, name, offset }),
            None => Err(unknown_class(hash)),
        },
    }
}

/// Where the section descriptors begin: behind the header and the root
/// directory object.
pub open spec fn section_begin(raw: Seq<u8>, c: Console) -> int {
    0x40 + header_of(raw, c).gf_db_size
}

/// Where the dependency descriptors begin.
pub open spec fn dependencies_begin(raw: Seq<u8>, c: Console) -> int {
    section_begin(raw, c) + 0x10 * header_of(raw, c).sections
}

/// Where the descriptors of the fourth kind begin.
pub open spec fn offset4_begin(raw: Seq<u8>, c: Console) -> int {
    dependencies_begin(raw, c) + 0x80 * header_of(raw, c).dependencies
}

/// Where the tables of offsets begin.
pub open spec fn tables_begin(raw: Seq<u8>, c: Console) -> int {
    offset4_begin(raw, c) + 0x40 * header_of(raw, c).offset4_count
}

/// The number of offsets in the table of section `i`.
pub open spec fn section_count(raw: Seq<u8>, c: Console, i: int) -> u32 {
    word_at(raw, c, section_begin(raw, c) + 0x10 * i + 4)
}

/// Where the table of offsets of section `i` begins: the tables follow one
/// another in the order of the sections, four bytes for each offset.
#[verifier::opaque]
pub open spec fn table_offset(raw: Seq<u8>, c: Console, i: nat) -> int
    decreases i,
{
    if i == 0 {
        tables_begin(raw, c)
    } else {
        table_offset(raw, c, (i - 1) as nat) + 4 * section_count(raw, c, i - 1)
    }
}

/// Section `i` of a container, with its table of offsets located.
pub open spec fn located_section(raw: Seq<u8>, c: Console, i: int) -> BinSection {
    BinSection {
        number: word_at(raw, c, section_begin(raw, c) + 0x10 * i),
        count: section_count(raw, c, i),
        offset: table_offset(raw, c, i as nat) as u32,
    }
}

/// The error of locating the tables of the first `n` sections, if there is
/// one: a table begins where no 32-bit offset reaches, or ends behind the
/// end of the buffer.
#[verifier::opaque]
pub open spec fn sections_error(raw: Seq<u8>, c: Console, n: nat) -> Option<Error>
    decreases n,
{
    if n == 0 {
        None
    } else {
        match sections_error(raw, c, (n - 1) as nat) {
            Some(e) => Some(e),
            None => {
                let offset = table_offset(raw, c, (n - 1) as nat);
                let count = section_count(raw, c, n - 1);
                if offset > u32::MAX {
                    Some(Error::ConsoleNumberError)
                } else if offset + 4 * count > raw.len() {
                    Some(not_enough(4 * count, raw.len() as int, offset))
                } else {
                    None
                }
            },
        }
    }
}

/// The objects that the first `n` offsets of the table at `table` name.
#[verifier::opaque]
pub open spec fn table_stubs(raw: Seq<u8>, c: Console, table: int, n: nat) -> Result<
    Seq<BinObject>,
    Error,
>
    decreases n,
{
    if n == 0 {
        Ok(Seq::empty())
    } else {
        match table_stubs(raw, c, table, (n - 1) as nat) {
            Err(e) => Err(e),
            Ok(before) => match stub_at(raw, c, word_at(raw, c, table + 4 * (n - 1))) {
                Err(e) => Err(e),
                Ok(object) => Ok(before.push(object)),
            },
        }
    }
}

/// The objects that the first `n` sections name: those of each section of
/// kind 1, in the order of the sections.
#[verifier::opaque]
pub open spec fn section_stubs(raw: Seq<u8>, c: Console, n: nat) -> Result<Seq<BinObject>, Error>
    decreases n,
{
    if n == 0 {
        Ok(Seq::empty())
    } else {
        match section_stubs(raw, c, (n - 1) as nat) {
            Err(e) => Err(e),
            Ok(before) => {
                let section = located_section(raw, c, n - 1);
                if section.number == 1 {
                    match table_stubs(raw, c, section.offset as int, section.count as nat) {
                        Err(e) => Err(e),
                        Ok(found) => Ok(before + found),
                    }
                } else {
                    Ok(before)
                }
            },
        }
    }
}

/// The error that parsing a container ends in, if it ends in one.
pub open spec fn parse_error(raw: Seq<u8>, c: Console) -> Option<Error> {
    let sections = header_of(raw, c).sections as nat;
    if raw.len() < 0x40 {
        Some(not_enough(0x40, raw.len() as int, 0))
    } else if tables_begin(raw, c) > raw.len() {
        Some(not_enough(tables_begin(raw, c) - 0x40, raw.len() as int, 0x40))
    } else if sections_error(raw, c, sections) is Some {
        sections_error(raw, c, sections)
    } else {
        match section_stubs(raw, c, sections) {
            Err(e) => Some(e),
            Ok(_) => None,
        }
    }
}

/// The place of the first zero byte at or behind `from`, or the length of
/// the buffer if there is none.
pub open spec fn first_zero(raw: Seq<u8>, from: int) -> int
    decreases raw.len() - from,
{
    if from < 0 || from >= raw.len() {
        raw.len() as int
    } else if raw[from] == 0 {
        from
    } else {
        first_zero(raw, from + 1)
    }
}

/// The bytes of the string that begins at `begin`: those before the first
/// zero byte, and none if no zero byte follows.
pub open spec fn string_bytes(raw: Seq<u8>, begin: int) -> Seq<u8> {
    if first_zero(raw, begin) >= raw.len() {
        Seq::empty()
    } else {
        raw.subrange(begin, first_zero(raw, begin))
    }
}

/// The string at `offset` behind the header.
pub open spec fn string_at(raw: Seq<u8>, offset: u32) -> Seq<char> {
    latin1_chars(string_bytes(raw, offset + 0x40))
}

/// The error of reading a string at `offset` behind the header, if there is
/// one.
pub open spec fn string_error(raw: Seq<u8>, offset: u32) -> Option<Error> {
    if offset + 0x40 > raw.len() {
        Some(not_enough(1, raw.len() as int, offset + 0x40))
    } else {
        None
    }
}

/// The error that reading an object of class `T` at `offset` behind the
/// header ends in, if it ends in one.
pub open spec fn object_error<T: SerialisedShrekSuperSlamGameObject>(
    raw: Seq<u8>,
    c: Console,
    offset: u32,
) -> Option<Error> {
    let begin = offset + 0x40;
    if begin + T::class_size() > raw.len() {
        Some(not_enough(T::class_size() as int, raw.len() as int, offset as int))
    } else if word_at(raw, c, begin) != T::class_hash() {
        Some(incorrect_type(word_at(raw, c, begin)))
    } else {
        T::read_error(raw, c, begin)
    }
}

/// The error that writing over an object of class `T` at `offset` behind the
/// header ends in before anything is written, if it ends in one.
pub open spec fn overwrite_refused<T: SerialisedShrekSuperSlamGameObject>(
    raw: Seq<u8>,
    c: Console,
    offset: u32,
) -> Option<Error> {
    match checked_word(raw, c, offset + 0x40) {
        Err(e) => Some(e),
        Ok(hash) => if hash != T::class_hash() {
            Some(incorrect_type(hash))
        } else {
            None
        },
    }
}

/// The offsets of those among the first `n` objects that have the hash
/// `hash`, in their order.
#[verifier::opaque]
pub open spec fn offsets_of_class(objects: Seq<BinObject>, hash: u32, n: nat) -> Seq<u32>
    decreases n,
{
    if n == 0 {
        Seq::empty()
    } else {
        let before = offsets_of_class(objects, hash, (n - 1) as nat);
        if objects[n - 1].hash == hash {
            before.push(objects[n - 1].offset)
        } else {
            before
        }
    }
}

/// The object that entry `i` of the root directory names.
pub open spec fn directory_stub(raw: Seq<u8>, c: Console, i: int) -> BinObject {
    stub_at(raw, c, word_at(raw, c, entries_begin(raw, c, 0x40) + 0x10 * i + 4))->Ok_0
}

/// The name of entry `i` of the root directory.
pub open spec fn directory_name(raw: Seq<u8>, c: Console, i: int) -> Seq<char> {
    string_at(raw, word_at(raw, c, entries_begin(raw, c, 0x40) + 0x10 * i))
}

/// The error of resolving the first `n` entries of the root directory, in
/// their order, if there is one.
#[verifier::opaque]
pub open spec fn resolve_entries_error(raw: Seq<u8>, c: Console, n: nat) -> Option<Error>
    decreases n,
{
    if n == 0 {
        None
    } else {
        match resolve_entries_error(raw, c, (n - 1) as nat) {
            Some(e) => Some(e),
            None => resolve_error(raw, c, directory_stub(raw, c, n - 1)),
        }
    }
}

/// The error that parsing the root directory of a container to its named
/// objects ends in, if it ends in one: the directory is read first, then
/// each entry is resolved.
pub open spec fn directory_parse_error(raw: Seq<u8>, c: Console) -> Option<Error> {
    match object_error::<GfDb>(raw, c, 0) {
        Some(e) => Some(e),
        None => resolve_entries_error(raw, c, entries_count(raw, c, 0x40) as nat),
    }
}

/// Whether `named` are the objects of the root directory of a container,
/// each with its name, in the order of the directory.
pub open spec fn is_parsed_directory(
    named: Seq<(String, ShrekSuperSlamObject)>,
    raw: Seq<u8>,
    c: Console,
) -> bool {
    &&& named.len() == entries_count(raw, c, 0x40)
    &&& forall|i: int|
        0 <= i < named.len() ==> (#[trigger] named[i]).0@ == directory_name(raw, c, i)
            && is_resolved(named[i].1, raw, c, directory_stub(raw, c, i))
}

/// The bytes of a container: its header written anew, and everything behind
/// the header as it is.
pub open spec fn container_bytes(raw: Seq<u8>, c: Console) -> Seq<u8> {
    header_bytes(header_of(raw, c), c) + raw.subrange(0x40, raw.len() as int)
}

/// The word at `a + k` of a buffer is the word at `k` of its part from `a`
/// up to `b`.
pub proof fn lemma_word_at_subrange(raw: Seq<u8>, c: Console, a: int, b: int, k: int)
    requires
        0 <= a <= b <= raw.len(),
        0 <= k,
        k + 4 <= b - a,
    ensures
        word_at(raw.subrange(a, b), c, k) == word_at(raw, c, a + k),
{
    reveal(word_at);
    assert(raw.subrange(a, b).subrange(k, k + 4) =~= raw.subrange(a + k, a + k + 4));
}

/// Structure for reading and modifying a container from the extracted game
/// files.
///
/// A container is primarily a collection of serialised objects of in-game
/// class types relating to a particular subject, such as a playable
/// character or an item. This structure provides methods for deserialising
/// the objects contained within it, as well as for writing modified copies
/// of these objects back to the file.
pub struct Bin {
    /// The section descriptors, each with its table of offsets located.
    pub sections: Vec<BinSection>,
    /// The dependency descriptors.
    pub dependencies: Vec<BinDependency>,
    /// The descriptors of the fourth kind.
    pub offset4objs: Vec<BinOffset4Struct>,
    /// The objects that the sections of kind 1 name.
    pub objects: Vec<BinObject>,
    /// The console version the bytes come from.
    pub console: Console,
    /// The bytes of the whole file.
    pub raw: Vec<u8>,
}

/// Gives each section the place of its table: the table of each section
/// follows that of the section before it.
fn locate_tables(raw: &[u8], console: Console, sections: &mut Vec<BinSection>, tables: u64) -> (r:
    Result<(), Error>)
    requires
        raw@.len() >= 0x40,
        tables == tables_begin(raw@, console),
        tables <= raw@.len(),
        old(sections)@.len() == header_of(raw@, console).sections,
        forall|k: int|
            0 <= k < old(sections)@.len() ==> #[trigger] old(sections)@[k] == section_at(
                raw@,
                console,
                section_begin(raw@, console) + k * 0x10,
            ),
    ensures
        final(sections)@.len() == old(sections)@.len(),
        match r {
            Ok(_) => {
                &&& sections_error(raw@, console, old(sections)@.len()) is None
                &&& forall|k: int|
                    0 <= k < final(sections)@.len() ==> #[trigger] final(sections)@[k]
                        == located_section(raw@, console, k)
            },
            Err(e) => sections_error(raw@, console, old(sections)@.len()) == Some(e),
        },
{
    let len: usize = raw.len();
    let count: usize = sections.len();
    let mut table: u64 = tables;
    let mut i: usize = 0;
    proof {
        lemma_table_offset_step(raw@, console, 0);
        lemma_sections_error_step(raw@, console, 0);
    }
    while i < count
        invariant
            len == raw@.len(),
            count == sections@.len(),
            count == old(sections)@.len(),
            i <= count,
            table == table_offset(raw@, console, i as nat),
            table <= len,
            sections_error(raw@, console, i as nat) is None,
            forall|k: int|
                0 <= k < i ==> #[trigger] sections@[k] == located_section(raw@, console, k),
            forall|k: int|
                i <= k < count ==> #[trigger] sections@[k] == section_at(
                    raw@,
                    console,
                    section_begin(raw@, console) + k * 0x10,
                ),
        decreases count - i,
    {
        let section = sections[i];
        proof {
            lemma_table_offset_step(raw@, console, i as nat);
            lemma_sections_error_step(raw@, console, i as nat);
        }
        assert(section.count == section_count(raw@, console, i as int));
        if table > u32::MAX as u64 {
            proof {
                assert(sections_error(raw@, console, (i + 1) as nat) == Some(
                    Error::ConsoleNumberError,
                ));
                lemma_sections_error_stays(raw@, console, (i + 1) as nat, count as nat);
            }
            return Err(Error::ConsoleNumberError);
        }
        let size: u64 = section.count as u64 * 4;
        if size > len as u64 - table {
            proof {
                assert(sections_error(raw@, console, (i + 1) as nat) == Some(
                    not_enough(size as int, len as int, table as int),
                ));
                lemma_sections_error_stays(raw@, console, (i + 1) as nat, count as nat);
            }
            return Err(too_few_bytes(size, len as u64, table));
        }
        sections.set(
            i,
            BinSection { number: section.number, count: section.count, offset: table as u32 },
        );
        assert(sections@[i as int] == located_section(raw@, console, i as int));
        assert(sections_error(raw@, console, (i + 1) as nat) is None);
        table = table + size;
        i += 1;
    }
    Ok(())
}

/// Appends the objects that the offsets of one table name.
fn table_objects(
    raw: &[u8],
    console: Console,
    table: u32,
    count: u32,
    objects: &mut Vec<BinObject>,
) -> (r: Result<(), Error>)
    requires
        table + 4 * count <= raw@.len(),
        forall|k: int|
            0 <= k < old(objects)@.len() ==> stub_at(
                raw@,
                console,
                (#[trigger] old(objects)@[k]).offset,
            ) == Ok::<BinObject, Error>(old(objects)@[k]),
    ensures
        match r {
            Ok(_) => {
                &&& table_stubs(raw@, console, table as int, count as nat) is Ok
                &&& final(objects)@ == old(objects)@ + table_stubs(
                    raw@,
                    console,
                    table as int,
                    count as nat,
                )->Ok_0
                &&& forall|k: int|
                    0 <= k < final(objects)@.len() ==> stub_at(
                        raw@,
                        console,
                        (#[trigger] final(objects)@[k]).offset,
                    ) == Ok::<BinObject, Error>(final(objects)@[k])
            },
            Err(e) => table_stubs(raw@, console, table as int, count as nat) == Err::<
                Seq<BinObject>,
                Error,
            >(e),
        },
{
    let len: usize = raw.len();
    let mut j: u32 = 0;
    proof {
        lemma_table_stubs_step(raw@, console, table as int, 0);
        assert(objects@ =~= old(objects)@ + Seq::<BinObject>::empty());
    }
    while j < count
        invariant
            len == raw@.len(),
            j <= count,
            table + 4 * count <= len,
            table_stubs(raw@, console, table as int, j as nat) is Ok,
            objects@ == old(objects)@ + table_stubs(raw@, console, table as int, j as nat)->Ok_0,
            forall|k: int|
                0 <= k < objects@.len() ==> stub_at(
                    raw@,
                    console,
                    (#[trigger] objects@[k]).offset,
                ) == Ok::<BinObject, Error>(objects@[k]),
        decreases count - j,
    {
        // This region contains a list of offsets within the file to each
        // object contained within it
        proof {
            lemma_table_stubs_step(raw@, console, table as int, j as nat);
        }
        let object_ptr_offset: usize = (table as u64 + j as u64 * 4) as usize;
        let object_offset = get_word(raw, console, object_ptr_offset);
        let ghost found = table_stubs(raw@, console, table as int, j as nat)->Ok_0;
        let obj = match BinObject::new(raw, object_offset, console) {
            Ok(obj) => obj,
            Err(e) => {
                proof {
                    assert(table_stubs(raw@, console, table as int, (j + 1) as nat) == Err::<
                        Seq<BinObject>,
                        Error,
                    >(e));
                    lemma_table_stubs_error_stays(
                        raw@,
                        console,
                        table as int,
                        (j + 1) as nat,
                        count as nat,
                    );
                }
                return Err(e);
            },
        };
        objects.push(obj);
        proof {
            assert(table_stubs(raw@, console, table as int, (j + 1) as nat) == Ok::<
                Seq<BinObject>,
                Error,
            >(found.push(obj)));
            assert(objects@ =~= old(objects)@ + found.push(obj));
        }
        j += 1;
    }
    Ok(())
}

/// Collects the objects that the sections of kind 1 name, in the order of
/// the sections.
fn collect_objects(raw: &[u8], console: Console, sections: &Vec<BinSection>) -> (r: Result<
    Vec<BinObject>,
    Error,
>)
    requires
        sections_error(raw@, console, sections@.len()) is None,
        forall|k: int|
            0 <= k < sections@.len() ==> #[trigger] sections@[k] == located_section(
                raw@,
                console,
                k,
            ),
    ensures
        match r {
            Ok(objects) => {
                &&& section_stubs(raw@, console, sections@.len()) == Ok::<Seq<BinObject>, Error>(
                    objects@,
                )
                &&& forall|k: int|
                    0 <= k < objects@.len() ==> stub_at(
                        raw@,
                        console,
                        (#[trigger] objects@[k]).offset,
                    ) == Ok::<BinObject, Error>(objects@[k])
            },
            Err(e) => section_stubs(raw@, console, sections@.len()) == Err::<
                Seq<BinObject>,
                Error,
            >(e),
        },
{
    let count: usize = sections.len();
    let mut objects: Vec<BinObject> = Vec::new();
    let mut i: usize = 0;
    proof {
        lemma_section_stubs_step(raw@, console, 0);
    }
    while i < count
        invariant
            count == sections@.len(),
            i <= count,
            sections_error(raw@, console, count as nat) is None,
            forall|k: int|
                0 <= k < count ==> #[trigger] sections@[k] == located_section(raw@, console, k),
            section_stubs(raw@, console, i as nat) == Ok::<Seq<BinObject>, Error>(objects@),
            forall|k: int|
                0 <= k < objects@.len() ==> stub_at(
                    raw@,
                    console,
                    (#[trigger] objects@[k]).offset,
                ) == Ok::<BinObject, Error>(objects@[k]),
        decreases count - i,
    {
        let section = sections[i];
        proof {
            lemma_section_stubs_step(raw@, console, i as nat);
        }
        assert(section == located_section(raw@, console, i as int));
        // The section of kind 1 lists the objects within the container
        if section.number == 1 {
            proof {
                lemma_section_fits(raw@, console, i as nat, count as nat);
            }
            let ghost before = objects@;
            match table_objects(raw, console, section.offset, section.count, &mut objects) {
                Ok(_) => {},
                Err(e) => {
                    proof {
                        assert(section_stubs(raw@, console, (i + 1) as nat) == Err::<
                            Seq<BinObject>,
                            Error,
                        >(e));
                        lemma_section_stubs_error_stays(
                            raw@,
                            console,
                            (i + 1) as nat,
                            count as nat,
                        );
                    }
                    return Err(e);
                },
            }
            assert(section_stubs(raw@, console, (i + 1) as nat) == Ok::<Seq<BinObject>, Error>(
                objects@,
            ));
        } else {
            assert(objects@ =~= objects@);
            assert(section_stubs(raw@, console, (i + 1) as nat) == Ok::<Seq<BinObject>, Error>(
                objects@,
            ));
        }
        i += 1;
    }
    Ok(objects)
}

impl BinObject {
    /// Create a new BinObject structure from the given `offset` in the `raw`
    /// bytes of the entire container from the given `console` version.
    pub fn new(raw: &[u8], offset: u32, console: Console) -> (r: Result<BinObject, Error>)
        ensures
            r == stub_at(raw@, console, offset),
    {
        let hash = get_word_checked(raw, console, offset as u64 + 0x40)?;
        if let Some(name) = hash_lookup(hash) {
            Ok(BinObject { hash, name, offset })
        } else {
            Err(Error::ClassDeserialiseError(ClassError::UnknownClass { hash }))
        }
    }
}

impl Bin {
    /// Whether the parts of this container are those that its bytes
    /// describe.
    pub open spec fn is_parsed(&self) -> bool {
        let raw = self.raw@;
        let c = self.console;
        &&& raw.len() >= 0x40
        &&& tables_begin(raw, c) <= raw.len()
        &&& self.sections@.len() == header_of(raw, c).sections
        &&& forall|i: int|
            0 <= i < self.sections@.len() ==> #[trigger] self.sections@[i] == located_section(
                raw,
                c,
                i,
            )
        &&& self.dependencies@.len() == header_of(raw, c).dependencies
        &&& forall|i: int|
            0 <= i < self.dependencies@.len() ==> is_dependency_at(
                #[trigger] self.dependencies@[i],
                raw,
                c,
                dependencies_begin(raw, c) + 0x80 * i,
            )
        &&& self.offset4objs@.len() == header_of(raw, c).offset4_count
        &&& forall|i: int|
            0 <= i < self.offset4objs@.len() ==> is_offset4_at(
                #[trigger] self.offset4objs@[i],
                raw,
                c,
                offset4_begin(raw, c) + 0x40 * i,
            )
        &&& section_stubs(raw, c, self.sections@.len()) == Ok::<Seq<BinObject>, Error>(
            self.objects@,
        )
    }

    /// Whether every object of this container begins, behind the header,
    /// with the hash it is listed with, and has the name that its hash is
    /// registered under.
    pub open spec fn objects_located(&self) -> bool {
        forall|k: int|
            0 <= k < self.objects@.len() ==> stub_at(
                self.raw@,
                self.console,
                (#[trigger] self.objects@[k]).offset,
            ) == Ok::<BinObject, Error>(self.objects@[k])
    }

    /// Whether this container differs from `other` in its bytes at most.
    pub open spec fn same_but_raw(&self, other: Bin) -> bool {
        &&& self.sections == other.sections
        &&& self.dependencies == other.dependencies
        &&& self.offset4objs == other.offset4objs
        &&& self.objects == other.objects
        &&& self.console == other.console
    }

    /// Returns the length of the container header.
    pub fn header_length() -> (n: usize)
        ensures
            n == 0x40,
    {
        BinHeader::size()
    }

    /// Construct a new `Bin` object from the given `raw` bytes of a
    /// decompressed container, from the given `console` version.
    pub fn new(raw: Vec<u8>, console: Console) -> (r: Result<Bin, Error>)
        ensures
            match r {
                Ok(bin) => {
                    &&& parse_error(raw@, console) is None
                    &&& bin.raw@ == raw@
                    &&& bin.console == console
                    &&& bin.is_parsed()
                    &&& bin.objects_located()
                },
                Err(e) => parse_error(raw@, console) == Some(e),
            },
    {
        let len: usize = raw.len();
        // Read the header
        let header = BinHeader::new(raw.as_slice(), console)?;

        // The offsets and counts within the header are used to calculate
        // various offsets to the different sections within the file
        let section_begin_offset: u64 = 0x40 + header.gf_db_size as u64;
        let dependencies_begin_offset: u64 = section_begin_offset + header.sections as u64 * 0x10;
        let ptr4_begin_offset: u64 = dependencies_begin_offset + header.dependencies as u64 * 0x80;
        let tables_begin_offset: u64 = ptr4_begin_offset + header.offset4_count as u64 * 0x40;
        if tables_begin_offset > len as u64 {
            return Err(too_few_bytes(tables_begin_offset - 0x40, len as u64, 0x40));
        }
        let sb: usize = section_begin_offset as usize;
        let db: usize = dependencies_begin_offset as usize;
        let ob: usize = ptr4_begin_offset as usize;
        let tb: usize = tables_begin_offset as usize;

        // Read in each descriptor
        let mut sections = BinSection::new(slice_subrange(raw.as_slice(), sb, db), console)?;
        let dependencies = BinDependency::new(slice_subrange(raw.as_slice(), db, ob), console)?;
        let offset4objs = BinOffset4Struct::new(slice_subrange(raw.as_slice(), ob, tb), console)?;
        proof {
            assert forall|i: int| 0 <= i < sections@.len() implies #[trigger] sections@[i]
                == section_at(raw@, console, sb + i * 0x10) by {
                lemma_section_in_part(raw@, console, sb as int, db as int, i * 0x10);
            }
            assert forall|i: int| 0 <= i < dependencies@.len() implies is_dependency_at(
                #[trigger] dependencies@[i],
                raw@,
                console,
                db + 0x80 * i,
            ) by {
                lemma_dependency_in_part(
                    dependencies@[i],
                    raw@,
                    console,
                    db as int,
                    ob as int,
                    i * 0x80,
                );
            }
            assert forall|i: int| 0 <= i < offset4objs@.len() implies is_offset4_at(
                #[trigger] offset4objs@[i],
                raw@,
                console,
                ob + 0x40 * i,
            ) by {
                lemma_offset4_in_part(
                    offset4objs@[i],
                    raw@,
                    console,
                    ob as int,
                    tb as int,
                    i * 0x40,
                );
            }
        }
        locate_tables(raw.as_slice(), console, &mut sections, tables_begin_offset)?;

        // Create an object for each serialised game object in the container
        let objects = collect_objects(raw.as_slice(), console, &sections)?;
        let bin = Bin { sections, dependencies, offset4objs, objects, console, raw };
        Ok(bin)
    }

    /// Returns the raw bytes of the container.
    pub fn raw(&self) -> (r: &[u8])
        ensures
            r@ == self.raw@,
    {
        self.raw.as_slice()
    }

    /// Returns a list of objects within the container.
    pub fn objects(&self) -> (r: &Vec<BinObject>)
        ensures
            r == &self.objects,
    {
        &self.objects
    }

    /// Returns a deserialised object of type `T` contained at given `offset`
    /// within the container.
    ///
    /// If the given `offset` does not contain the start of the requested
    /// type, or the file does not have enough space to contain the object
    /// from the given offset, then an error is returned.
    pub fn get_object_from_offset<T>(&self, offset: u32) -> (r: Result<T, Error>) where
        T: SerialisedShrekSuperSlamGameObject,

        ensures
            match r {
                Ok(o) => object_error::<T>(self.raw@, self.console, offset) is None
                    && o.is_read_of(self.raw@, self.console, offset + 0x40),
                Err(e) => object_error::<T>(self.raw@, self.console, offset) == Some(e),
            },
    {
        // Ensure there are enough bytes for the requested type to fit before
        // we try and make a slice for it
        let object_begin: u64 = offset as u64 + 0x40;
        let len: u64 = self.raw.len() as u64;
        let size: u64 = T::size() as u64;
        if size > len || object_begin > len - size {
            return Err(too_few_bytes(size, len, offset as u64));
        }
        // Ensure the requested type exists at the given offset by checking
        // the hash at the offset matches the expected hash of the type

        let hash = get_word(self.raw.as_slice(), self.console, object_begin as usize);
        if hash != T::hash() {
            return Err(Error::ClassDeserialiseError(ClassError::IncorrectType { hash }));
        }
        // Pass the offset to the game object's own constructor

        T::new(self, object_begin as usize)
    }

    /// Returns a string from the given `offset` within the container: the
    /// ISO 8859-1 text up to the first zero byte, or nothing if no zero byte
    /// follows.
    pub fn get_str_from_offset(&self, offset: u32) -> (r: Result<String, Error>)
        ensures
            match r {
                Ok(s) => string_error(self.raw@, offset) is None && s@ == string_at(
                    self.raw@,
                    offset,
                ),
                Err(e) => string_error(self.raw@, offset) == Some(e),
            },
    {
        let len: usize = self.raw.len();
        let str_begin: u64 = offset as u64 + 0x40;
        if str_begin > len as u64 {
            return Err(too_few_bytes(1, len as u64, str_begin));
        }
        let begin: usize = str_begin as usize;

        // Find the first zero byte, which ends the string
        let mut end: usize = begin;
        while end < len && self.raw[end] != 0
            invariant
                len == self.raw@.len(),
                begin <= end <= len,
                first_zero(self.raw@, end as int) == first_zero(self.raw@, begin as int),
            decreases len - end,
        {
            end += 1;
        }
        if end >= len {
            end = begin;
        }
        assert(self.raw@.subrange(begin as int, end as int) =~= string_bytes(
            self.raw@,
            begin as int,
        ));

        // Text within the game is stored using the single-byte ISO 8859-1
        // encoding
        decode(slice_subrange(self.raw.as_slice(), begin, end))
    }

    /// Overwrite an existing object at the given `offset` with the new
    /// object given in the `object` parameter.
    ///
    /// If the given `offset` does not contain the beginning of an object of
    /// the given type, then an error is returned and nothing is written.
    pub fn overwrite_object<T>(&mut self, offset: u32, object: &T) -> (r: Result<(), Error>) where
        T: SerialisedShrekSuperSlamGameObject + WriteableShrekSuperSlamGameObject,

        ensures
            final(self).same_but_raw(*old(self)),
            final(self).raw@.len() == old(self).raw@.len(),
            match overwrite_refused::<T>(old(self).raw@, old(self).console, offset) {
                Some(e) => r == Err::<(), Error>(e) && final(self).raw@ == old(self).raw@,
                None => {
                    let outcome = object.written(
                        old(self).raw@,
                        old(self).console,
                        offset + 0x40,
                    );
                    &&& final(self).raw@ == outcome.0
                    &&& match r {
                        Ok(_) => outcome.1 is None,
                        Err(e) => outcome.1 == Some(e),
                    }
                },
            },
    {
        // Check that the given offset actually contains an object of the
        // type given as a parameter before we overwrite it
        let object_begin: u64 = offset as u64 + 0x40;
        let hash = match get_word_checked(self.raw.as_slice(), self.console, object_begin) {
            Ok(hash) => hash,
            Err(e) => {
                return Err(e);
            },
        };
        if hash != T::hash() {
            return Err(Error::ClassDeserialiseError(ClassError::IncorrectType { hash }));
        }
        let len: usize = self.raw.len();
        assert(object_begin + 4 <= len);
        object.write(self, object_begin as usize)
    }

    /// Get all objects of a requested type `T` contained within the
    /// container.
    ///
    /// Returns a list of pairs of the offset of the object within the file,
    /// and the deserialised object, or the first error of reading one.
    pub fn get_all_objects_of_type<T>(&self) -> (r: Result<Vec<(u32, T)>, Error>) where
        T: SerialisedShrekSuperSlamGameObject,

        ensures
            ({
                let offsets = offsets_of_class(
                    self.objects@,
                    T::class_hash(),
                    self.objects@.len(),
                );
                match r {
                    Ok(v) => {
                        &&& objects_error::<T>(self.raw@, self.console, offsets, offsets.len())
                            is None
                        &&& v@.len() == offsets.len()
                        &&& forall|i: int|
                            0 <= i < v@.len() ==> (#[trigger] v@[i]).0 == offsets[i]
                                && v@[i].1.is_read_of(self.raw@, self.console, offsets[i] + 0x40)
                    },
                    Err(e) => objects_error::<T>(self.raw@, self.console, offsets, offsets.len())
                        == Some(e),
                }
            }),
    {
        let count: usize = self.objects.len();
        let hash = T::hash();
        let mut found: Vec<(u32, T)> = Vec::new();
        let mut i: usize = 0;
        proof {
            lemma_offsets_of_class_step(self.objects@, hash, 0);
            lemma_objects_error_step::<T>(self.raw@, self.console, Seq::empty(), 0);
        }
        while i < count
            invariant
                count == self.objects@.len(),
                hash == T::class_hash(),
                i <= count,
                found@.len() == offsets_of_class(self.objects@, hash, i as nat).len(),
                objects_error::<T>(
                    self.raw@,
                    self.console,
                    offsets_of_class(self.objects@, hash, i as nat),
                    found@.len(),
                ) is None,
                forall|k: int|
                    0 <= k < found@.len() ==> (#[trigger] found@[k]).0 == offsets_of_class(
                        self.objects@,
                        hash,
                        i as nat,
                    )[k] && found@[k].1.is_read_of(self.raw@, self.console, found@[k].0 + 0x40),
            decreases count - i,
        {
            let object = &self.objects[i];
            let ghost before = offsets_of_class(self.objects@, hash, i as nat);
            proof {
                lemma_offsets_of_class_step(self.objects@, hash, i as nat);
            }
            if object.hash == hash {
                let ghost after = before.push(object.offset);
                proof {
                    lemma_objects_error_prefix::<T>(
                        self.raw@,
                        self.console,
                        before,
                        after,
                        before.len(),
                    );
                    lemma_objects_error_step::<T>(self.raw@, self.console, after, before.len());
                }
                match self.get_object_from_offset::<T>(object.offset) {
                    Ok(read) => {
                        found.push((object.offset, read));
                    },
                    Err(e) => {
                        proof {
                            lemma_offsets_of_class_prefix(
                                self.objects@,
                                hash,
                                (i + 1) as nat,
                                count as nat,
                            );
                            let all = offsets_of_class(self.objects@, hash, count as nat);
                            lemma_objects_error_prefix::<T>(
                                self.raw@,
                                self.console,
                                after,
                                all,
                                after.len(),
                            );
                            lemma_objects_error_stays::<T>(
                                self.raw@,
                                self.console,
                                all,
                                after.len(),
                                all.len(),
                            );
                        }
                        return Err(e);
                    },
                }
            }
            i += 1;
        }
        Ok(found)
    }

    /// Parse a container to its named entries.
    ///
    /// Use this function to parse a container as the game would: by reading
    /// the `gf::DB` object at the top of the file, parsing out each object
    /// in it along with its name, and resolving each reference to an actual
    /// game type. The entries come in the order of the directory.
    pub fn parse(&self) -> (r: Result<Vec<(String, ShrekSuperSlamObject)>, Error>)
        ensures
            match r {
                Ok(named) => directory_parse_error(self.raw@, self.console) is None
                    && is_parsed_directory(named@, self.raw@, self.console),
                Err(e) => directory_parse_error(self.raw@, self.console) == Some(e),
            },
    {
        // Get the gf::DB object, which resides at offset 0 always.
        let db = self.get_object_from_offset::<GfDb>(0x00)?;

        // Resolve each item in the DB to an actual type, and add it to the
        // list along with its name.
        let count: usize = db.entries.len();
        let mut mapping: Vec<(String, ShrekSuperSlamObject)> = Vec::new();
        let mut i: usize = 0;
        proof {
            lemma_resolve_entries_error_step(self.raw@, self.console, 0);
        }
        while i < count
            invariant
                count == db.entries@.len(),
                i <= count,
                object_error::<GfDb>(self.raw@, self.console, 0) is None,
                db.is_read_of(self.raw@, self.console, 0x40),
                mapping@.len() == i,
                resolve_entries_error(self.raw@, self.console, i as nat) is None,
                forall|k: int|
                    0 <= k < i ==> (#[trigger] mapping@[k]).0@ == directory_name(
                        self.raw@,
                        self.console,
                        k,
                    ) && is_resolved(
                        mapping@[k].1,
                        self.raw@,
                        self.console,
                        directory_stub(self.raw@, self.console, k),
                    ),
            decreases count - i,
        {
            let entry = &db.entries[i];
            proof {
                lemma_resolve_entries_error_step(self.raw@, self.console, i as nat);
                assert(entry.1 == directory_stub(self.raw@, self.console, i as int));
            }
            match self.resolve_object(&entry.1) {
                Ok(resolved) => {
                    mapping.push((entry.0.clone(), resolved));
                },
                Err(e) => {
                    proof {
                        lemma_resolve_entries_error_stays(
                            self.raw@,
                            self.console,
                            (i + 1) as nat,
                            count as nat,
                        );
                    }
                    return Err(e);
                },
            }
            i += 1;
        }
        Ok(mapping)
    }

    /// Resolve a stub `object` in the file to an actual object type.
    ///
    /// This function is used to take the stub object that identifies an
    /// object in the container, and fleshes it out to an actual type so that
    /// you can use the data members.
    pub fn resolve_object(&self, object: &BinObject) -> (r: Result<ShrekSuperSlamObject, Error>)
        ensures
            match r {
                Ok(resolved) => resolve_error(self.raw@, self.console, *object) is None
                    && is_resolved(resolved, self.raw@, self.console, *object),
                Err(e) => resolve_error(self.raw@, self.console, *object) == Some(e),
            },
    {
        match object.hash {
            0xF2CFE08D => Ok(
                ShrekSuperSlamObject::AttackMoveRegion(
                    self.get_object_from_offset::<AttackMoveRegion>(object.offset)?,
                ),
            ),
            0xEBF07BB5 => Ok(
                ShrekSuperSlamObject::AttackMoveType(
                    self.get_object_from_offset::<AttackMoveType>(object.offset)?,
                ),
            ),
            0xE2AD9980 => Ok(
                ShrekSuperSlamObject::BehaviorAiFighting(
                    self.get_object_from_offset::<BehaviorAiFighting>(object.offset)?,
                ),
            ),
            0xD306D805 => Ok(
                ShrekSuperSlamObject::BehaviorFightingControlShrek(
                    self.get_object_from_offset::<BehaviorFightingControlShrek>(object.offset)?,
                ),
            ),
            0xC8E0C03F => Ok(
                ShrekSuperSlamObject::DynamicThrowable(
                    self.get_object_from_offset::<DynamicThrowable>(object.offset)?,
                ),
            ),
            0xC43D420D => Ok(
                ShrekSuperSlamObject::EffectStringReference(
                    self.get_object_from_offset::<EffectStringReference>(object.offset)?,
                ),
            ),
            0xDDEC024E => Ok(
                ShrekSuperSlamObject::Entity(
                    self.get_object_from_offset::<Entity>(object.offset)?,
                ),
            ),
            0xD24634FE => Ok(
                ShrekSuperSlamObject::EventSequence(
                    self.get_object_from_offset::<EventSequence>(object.offset)?,
                ),
            ),
            0xB974E53B => Ok(
                ShrekSuperSlamObject::GameWorld(
                    self.get_object_from_offset::<GameWorld>(object.offset)?,
                ),
            ),
            0x9B3DDBED => Ok(
                ShrekSuperSlamObject::GfDb(
                    self.get_object_from_offset::<GfDb>(object.offset)?,
                ),
            ),
            0xCD47AA2B => Ok(
                ShrekSuperSlamObject::ItemSpawner(
                    self.get_object_from_offset::<ItemSpawner>(object.offset)?,
                ),
            ),
            0xF32EBBA9 => Ok(
                ShrekSuperSlamObject::LoadingScreen(
                    self.get_object_from_offset::<LoadingScreen>(object.offset)?,
                ),
            ),
            0xBFC7788D => Ok(
                ShrekSuperSlamObject::LocalizedString(
                    self.get_object_from_offset::<LocalizedString>(object.offset)?,
                ),
            ),
            0xD9BB3F0F => Ok(
                ShrekSuperSlamObject::LookAtData(
                    self.get_object_from_offset::<LookAtData>(object.offset)?,
                ),
            ),
            0xDBFB4A35 => Ok(
                ShrekSuperSlamObject::ObjectInitializer(
                    self.get_object_from_offset::<ObjectInitializer>(object.offset)?,
                ),
            ),
            0xADDDF1EC => Ok(
                ShrekSuperSlamObject::PhysicsFighting(
                    self.get_object_from_offset::<PhysicsFighting>(object.offset)?,
                ),
            ),
            0xF05C7BD3 => Ok(
                ShrekSuperSlamObject::PotionType(
                    self.get_object_from_offset::<PotionType>(object.offset)?,
                ),
            ),
            0xBE7B44BA => Ok(
                ShrekSuperSlamObject::PowerupType(
                    self.get_object_from_offset::<PowerupType>(object.offset)?,
                ),
            ),
            0x8811292E => Ok(
                ShrekSuperSlamObject::ProjectileType(
                    self.get_object_from_offset::<ProjectileType>(object.offset)?,
                ),
            ),
            0xA6FC81A0 => Ok(
                ShrekSuperSlamObject::RenderSpawn(
                    self.get_object_from_offset::<RenderSpawn>(object.offset)?,
                ),
            ),
            0xA128E61A => Ok(
                ShrekSuperSlamObject::ScriptDb(
                    self.get_object_from_offset::<ScriptDb>(object.offset)?,
                ),
            ),
            0x90D8FCD6 => Ok(
                ShrekSuperSlamObject::Spitter(
                    self.get_object_from_offset::<Spitter>(object.offset)?,
                ),
            ),
            0x84AD7E70 => Ok(
                ShrekSuperSlamObject::SpitterKeyframe(
                    self.get_object_from_offset::<SpitterKeyframe>(object.offset)?,
                ),
            ),
            0xFE392AB6 => Ok(
                ShrekSuperSlamObject::WeaponType(
                    self.get_object_from_offset::<WeaponType>(object.offset)?,
                ),
            ),
            _ => Err(Error::NotImplementedError(object.name)),
        }
    }

    /// Get the bytes representation for this container: the header is
    /// written anew from its fields, and everything behind it is kept as it
    /// is.
    pub fn to_bytes(&self) -> (r: Result<Vec<u8>, Error>)
        ensures
            match r {
                Ok(b) => self.raw@.len() >= 0x40 && b@ == container_bytes(
                    self.raw@,
                    self.console,
                ),
                Err(e) => self.raw@.len() < 0x40 && e == not_enough(
                    0x40,
                    self.raw@.len() as int,
                    0,
                ),
            },
    {
        let raw = self.raw.as_slice();
        // The header contains counts of the structures in each section
        let header = BinHeader::new(raw, self.console)?;
        let mut bytes = header.to_bytes(self.console)?;

        // Everything behind the header follows as it is
        let mut i: usize = 0x40;
        let len: usize = raw.len();
        while i < len
            invariant
                0x40 <= i <= len,
                len == raw@.len(),
                bytes@ == header_bytes(header, self.console) + raw@.subrange(0x40, i as int),
            decreases len - i,
        {
            bytes.push(raw[i]);
            i += 1;
            assert(bytes@ =~= header_bytes(header, self.console) + raw@.subrange(0x40, i as int));
        }
        Ok(bytes)
    }
}

/// The section that the 16 bytes at `k` of a part of the buffer describe is
/// the one that the bytes at `a + k` of the buffer describe.
proof fn lemma_section_in_part(raw: Seq<u8>, c: Console, a: int, b: int, k: int)
    requires
        0 <= a <= b <= raw.len(),
        0 <= k,
        k + 0x10 <= b - a,
    ensures
        section_at(raw.subrange(a, b), c, k) == section_at(raw, c, a + k),
{
    lemma_word_at_subrange(raw, c, a, b, k);
    lemma_word_at_subrange(raw, c, a, b, k + 4);
}

/// What the 128 bytes at `k` of a part of the buffer describe is what the
/// bytes at `a + k` of the buffer describe.
proof fn lemma_dependency_in_part(
    d: BinDependency,
    raw: Seq<u8>,
    c: Console,
    a: int,
    b: int,
    k: int,
)
    requires
        0 <= a <= b <= raw.len(),
        0 <= k,
        k + 0x80 <= b - a,
        is_dependency_at(d, raw.subrange(a, b), c, k),
    ensures
        is_dependency_at(d, raw, c, a + k),
{
    let sub = raw.subrange(a, b);
    lemma_word_at_subrange(raw, c, a, b, k + 0x7C);
    assert(sub.subrange(k, k + STRLEN) =~= raw.subrange(a + k, a + k + STRLEN));
    assert(sub.subrange(k + STRLEN, k + 2 * STRLEN) =~= raw.subrange(
        a + k + STRLEN,
        a + k + 2 * STRLEN,
    ));
}

/// What the 64 bytes at `k` of a part of the buffer describe is what the
/// bytes at `a + k` of the buffer describe.
proof fn lemma_offset4_in_part(
    d: BinOffset4Struct,
    raw: Seq<u8>,
    c: Console,
    a: int,
    b: int,
    k: int,
)
    requires
        0 <= a <= b <= raw.len(),
        0 <= k,
        k + 0x40 <= b - a,
        is_offset4_at(d, raw.subrange(a, b), c, k),
    ensures
        is_offset4_at(d, raw, c, a + k),
{
    let sub = raw.subrange(a, b);
    lemma_word_at_subrange(raw, c, a, b, k + STRLEN);
    assert(sub.subrange(k, k + STRLEN) =~= raw.subrange(a + k, a + k + STRLEN));
}

/// The table of the first section begins where the tables begin, and the
/// table of each other section where that of the section before it ends.
pub proof fn lemma_table_offset_step(raw: Seq<u8>, c: Console, i: nat)
    ensures
        table_offset(raw, c, 0) == tables_begin(raw, c),
        table_offset(raw, c, i + 1) == table_offset(raw, c, i) + 4 * section_count(
            raw,
            c,
            i as int,
        ),
{
    reveal_with_fuel(table_offset, 2);
}

/// No table begins before the tables begin.
pub proof fn lemma_table_offset_bound(raw: Seq<u8>, c: Console, i: nat)
    ensures
        0x40 <= tables_begin(raw, c) <= table_offset(raw, c, i),
    decreases i,
{
    if i > 0 {
        lemma_table_offset_bound(raw, c, (i - 1) as nat);
        lemma_table_offset_step(raw, c, (i - 1) as nat);
    } else {
        lemma_table_offset_step(raw, c, 0);
    }
}

/// How the error of locating the tables of `n + 1` sections comes from that
/// of locating the tables of `n` sections.
pub proof fn lemma_sections_error_step(raw: Seq<u8>, c: Console, n: nat)
    ensures
        sections_error(raw, c, 0) is None,
        sections_error(raw, c, n + 1) == match sections_error(raw, c, n) {
            Some(e) => Some(e),
            None => {
                let offset = table_offset(raw, c, n);
                let count = section_count(raw, c, n as int);
                if offset > u32::MAX {
                    Some(Error::ConsoleNumberError)
                } else if offset + 4 * count > raw.len() {
                    Some(not_enough(4 * count, raw.len() as int, offset))
                } else {
                    None
                }
            },
        },
{
    reveal_with_fuel(sections_error, 2);
}

/// How the objects of `n + 1` offsets of a table come from those of `n`
/// offsets.
pub proof fn lemma_table_stubs_step(raw: Seq<u8>, c: Console, table: int, n: nat)
    ensures
        table_stubs(raw, c, table, 0) == Ok::<Seq<BinObject>, Error>(Seq::empty()),
        table_stubs(raw, c, table, n + 1) == match table_stubs(raw, c, table, n) {
            Err(e) => Err(e),
            Ok(before) => match stub_at(raw, c, word_at(raw, c, table + 4 * n)) {
                Err(e) => Err(e),
                Ok(object) => Ok(before.push(object)),
            },
        },
{
    reveal_with_fuel(table_stubs, 2);
}

/// How the objects of `n + 1` sections come from those of `n` sections.
pub proof fn lemma_section_stubs_step(raw: Seq<u8>, c: Console, n: nat)
    ensures
        section_stubs(raw, c, 0) == Ok::<Seq<BinObject>, Error>(Seq::empty()),
        section_stubs(raw, c, n + 1) == match section_stubs(raw, c, n) {
            Err(e) => Err(e),
            Ok(before) => {
                let section = located_section(raw, c, n as int);
                if section.number == 1 {
                    match table_stubs(raw, c, section.offset as int, section.count as nat) {
                        Err(e) => Err(e),
                        Ok(found) => Ok(before + found),
                    }
                } else {
                    Ok(before)
                }
            },
        },
{
    reveal_with_fuel(section_stubs, 2);
}

/// An error among the first `n` sections is the error among the first `m`
/// sections, for `m` no less than `n`.
pub proof fn lemma_sections_error_stays(raw: Seq<u8>, c: Console, n: nat, m: nat)
    requires
        n <= m,
        sections_error(raw, c, n) is Some,
    ensures
        sections_error(raw, c, m) == sections_error(raw, c, n),
    decreases m - n,
{
    if n < m {
        lemma_sections_error_stays(raw, c, n, (m - 1) as nat);
        lemma_sections_error_step(raw, c, (m - 1) as nat);
    }
}

/// Where the first `m` sections are located without an error, the table of
/// section `i` among them begins where a 32-bit offset reaches, and lies
/// within the buffer.
pub proof fn lemma_section_fits(raw: Seq<u8>, c: Console, i: nat, m: nat)
    requires
        i < m,
        sections_error(raw, c, m) is None,
    ensures
        0 <= table_offset(raw, c, i) <= u32::MAX,
        table_offset(raw, c, i) + 4 * section_count(raw, c, i as int) <= raw.len(),
    decreases m - i,
{
    lemma_table_offset_bound(raw, c, i);
    lemma_sections_error_step(raw, c, (m - 1) as nat);
    if i + 1 < m {
        lemma_section_fits(raw, c, i, (m - 1) as nat);
    }
}

/// An error among the first `n` offsets of a table is the error among its
/// first `m` offsets, for `m` no less than `n`.
pub proof fn lemma_table_stubs_error_stays(raw: Seq<u8>, c: Console, table: int, n: nat, m: nat)
    requires
        n <= m,
        table_stubs(raw, c, table, n) is Err,
    ensures
        table_stubs(raw, c, table, m) == table_stubs(raw, c, table, n),
    decreases m - n,
{
    if n < m {
        lemma_table_stubs_error_stays(raw, c, table, n, (m - 1) as nat);
        lemma_table_stubs_step(raw, c, table, (m - 1) as nat);
    }
}

/// An error among the objects of the first `n` sections is the error among
/// those of the first `m` sections, for `m` no less than `n`.
pub proof fn lemma_section_stubs_error_stays(raw: Seq<u8>, c: Console, n: nat, m: nat)
    requires
        n <= m,
        section_stubs(raw, c, n) is Err,
    ensures
        section_stubs(raw, c, m) == section_stubs(raw, c, n),
    decreases m - n,
{
    if n < m {
        lemma_section_stubs_error_stays(raw, c, n, (m - 1) as nat);
        lemma_section_stubs_step(raw, c, (m - 1) as nat);
    }
}

/// How the offsets among `n + 1` objects come from those among `n` objects.
pub proof fn lemma_offsets_of_class_step(objects: Seq<BinObject>, hash: u32, n: nat)
    ensures
        offsets_of_class(objects, hash, 0) == Seq::<u32>::empty(),
        offsets_of_class(objects, hash, n + 1) == ({
            let before = offsets_of_class(objects, hash, n);
            if objects[n as int].hash == hash {
                before.push(objects[n as int].offset)
            } else {
                before
            }
        }),
{
    reveal_with_fuel(offsets_of_class, 2);
}

/// The offsets among the first `n` objects open those among the first `m`
/// objects, for `m` no less than `n`.
pub proof fn lemma_offsets_of_class_prefix(objects: Seq<BinObject>, hash: u32, n: nat, m: nat)
    requires
        n <= m,
    ensures
        offsets_of_class(objects, hash, n).len() <= offsets_of_class(objects, hash, m).len(),
        forall|k: int|
            0 <= k < offsets_of_class(objects, hash, n).len() ==> offsets_of_class(
                objects,
                hash,
                n,
            )[k] == offsets_of_class(objects, hash, m)[k],
    decreases m - n,
{
    if n < m {
        lemma_offsets_of_class_prefix(objects, hash, n, (m - 1) as nat);
        lemma_offsets_of_class_step(objects, hash, (m - 1) as nat);
    }
}

/// The error of reading the first `n` objects depends on the first `n`
/// offsets only.
pub proof fn lemma_objects_error_prefix<T: SerialisedShrekSuperSlamGameObject>(
    raw: Seq<u8>,
    c: Console,
    a: Seq<u32>,
    b: Seq<u32>,
    n: nat,
)
    requires
        n <= a.len(),
        n <= b.len(),
        forall|k: int| 0 <= k < n ==> a[k] == b[k],
    ensures
        objects_error::<T>(raw, c, a, n) == objects_error::<T>(raw, c, b, n),
    decreases n,
{
    if n > 0 {
        lemma_objects_error_prefix::<T>(raw, c, a, b, (n - 1) as nat);
        lemma_objects_error_step::<T>(raw, c, a, (n - 1) as nat);
        lemma_objects_error_step::<T>(raw, c, b, (n - 1) as nat);
    } else {
        lemma_objects_error_step::<T>(raw, c, a, 0);
        lemma_objects_error_step::<T>(raw, c, b, 0);
    }
}

/// How the error of resolving `n + 1` entries comes from that of resolving
/// `n` entries.
pub proof fn lemma_resolve_entries_error_step(raw: Seq<u8>, c: Console, n: nat)
    ensures
        resolve_entries_error(raw, c, 0) is None,
        resolve_entries_error(raw, c, n + 1) == match resolve_entries_error(raw, c, n) {
            Some(e) => Some(e),
            None => resolve_error(raw, c, directory_stub(raw, c, n as int)),
        },
{
    reveal_with_fuel(resolve_entries_error, 2);
}

/// An error among the first `n` entries is the error among the first `m`
/// entries, for `m` no less than `n`.
pub proof fn lemma_resolve_entries_error_stays(raw: Seq<u8>, c: Console, n: nat, m: nat)
    requires
        n <= m,
        resolve_entries_error(raw, c, n) is Some,
    ensures
        resolve_entries_error(raw, c, m) == resolve_entries_error(raw, c, n),
    decreases m - n,
{
    if n < m {
        lemma_resolve_entries_error_stays(raw, c, n, (m - 1) as nat);
        lemma_resolve_entries_error_step(raw, c, (m - 1) as nat);
    }
}

/// The bytes of a container are the bytes it was read from, where the
/// header bytes that no field occupies are zero.
pub proof fn lemma_container_bytes_same(raw: Seq<u8>, c: Console)
    requires
        raw.len() >= 0x40,
        reserved_clear(raw),
    ensures
        container_bytes(raw, c) == raw,
{
    lemma_header_bytes_of(raw, c);
    assert(container_bytes(raw, c) =~= raw);
}

/// Writing an object over the place it was read from changes nothing: the
/// write is not refused, does not fail, and leaves every byte as it is. The
/// object must be stored in the one form that a write produces.
pub proof fn lemma_overwrite_read<T: WriteableShrekSuperSlamGameObject>(
    object: T,
    raw: Seq<u8>,
    c: Console,
    offset: u32,
)
    requires
        object_error::<T>(raw, c, offset) is None,
        object.is_read_of(raw, c, offset + 0x40),
        T::canonical(raw, c, offset + 0x40),
    ensures
        overwrite_refused::<T>(raw, c, offset) is None,
        object.written(raw, c, offset + 0x40) == (raw, None::<Error>),
{
    T::lemma_registered();
    object.lemma_write_read(raw, c, offset + 0x40);
}

} // verus!
