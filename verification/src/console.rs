//! Per-platform reading and writing of 32-bit words.
use vstd::prelude::*;
use vstd::string::StringExecFns;
use byteorder::{BigEndian, LittleEndian, ReadBytesExt, WriteBytesExt};
use crate::errors::Error;

verus! {

/// The different console versions of the game, used to determine which
/// endianness to use when reading numbers from files.
#[derive(Copy, Clone, PartialEq, Eq, Structural, Debug)]
pub enum Console {
    Gamecube,
    PC,
    PS2,
    Xbox,
}

/// A 32-bit IEEE 754 number, held as its bit pattern.
#[derive(Copy, Clone, PartialEq, Eq, Structural, Debug)]
pub struct FloatBits {
    pub bits: u32,
}

/// The error type of `std::io`, which `byteorder` returns. Nothing is known
/// of a value of it.
#[verifier::external_type_specification]
#[verifier::external_body]
pub struct ExIoError(std::io::Error);

/// The number that four bytes stand for, most significant byte first.
pub open spec fn be_value(b: Seq<u8>) -> int {
    b[0] * 0x100_0000 + b[1] * 0x1_0000 + b[2] * 0x100 + b[3]
}

/// The number that four bytes stand for, least significant byte first.
pub open spec fn le_value(b: Seq<u8>) -> int {
    b[3] * 0x100_0000 + b[2] * 0x1_0000 + b[1] * 0x100 + b[0]
}

/// The four bytes of a number, most significant byte first.
pub open spec fn be_bytes(n: u32) -> Seq<u8> {
    seq![
        (n / 0x100_0000) as u8,
        (n / 0x1_0000 % 0x100) as u8,
        (n / 0x100 % 0x100) as u8,
        (n % 0x100) as u8,
    ]
}

/// The four bytes of a number, least significant byte first.
pub open spec fn le_bytes(n: u32) -> Seq<u8> {
    seq![
        (n % 0x100) as u8,
        (n / 0x100 % 0x100) as u8,
        (n / 0x1_0000 % 0x100) as u8,
        (n / 0x100_0000) as u8,
    ]
}

/// Calls `ReadBytesExt::read_u32::<BigEndian>` of `byteorder` on a slice. It
/// takes the first four bytes as a big-endian number, and succeeds whenever
/// the slice holds four bytes.
#[verifier::external_body]
fn read_u32_big_endian(bytes: &[u8]) -> (r: Result<u32, std::io::Error>)
    ensures
        bytes@.len() >= 4 ==> r is Ok && r->Ok_0 == be_value(bytes@),
        bytes@.len() < 4 ==> r is Err,
{
    let mut rdr = bytes;
    rdr.read_u32::<BigEndian>()
}

/// Calls `ReadBytesExt::read_u32::<LittleEndian>` of `byteorder` on a slice.
/// It takes the first four bytes as a little-endian number, and succeeds
/// whenever the slice holds four bytes.
#[verifier::external_body]
fn read_u32_little_endian(bytes: &[u8]) -> (r: Result<u32, std::io::Error>)
    ensures
        bytes@.len() >= 4 ==> r is Ok && r->Ok_0 == le_value(bytes@),
        bytes@.len() < 4 ==> r is Err,
{
    let mut rdr = bytes;
    rdr.read_u32::<LittleEndian>()
}

/// Calls `WriteBytesExt::write_u32::<BigEndian>` of `byteorder` on a vector,
/// which appends the four bytes of `n`, most significant first. Writing to a
/// vector does not fail.
#[verifier::external_body]
fn write_u32_big_endian(wtr: &mut Vec<u8>, n: u32) -> (r: Result<(), std::io::Error>)
    ensures
        r is Ok,
        final(wtr)@ == old(wtr)@ + be_bytes(n),
{
    wtr.write_u32::<BigEndian>(n)
}

/// Calls `WriteBytesExt::write_u32::<LittleEndian>` of `byteorder` on a
/// vector, which appends the four bytes of `n`, least significant first.
/// Writing to a vector does not fail.
#[verifier::external_body]
fn write_u32_little_endian(wtr: &mut Vec<u8>, n: u32) -> (r: Result<(), std::io::Error>)
    ensures
        r is Ok,
        final(wtr)@ == old(wtr)@ + le_bytes(n),
{
    wtr.write_u32::<LittleEndian>(n)
}

/// Converts an error from the `byteorder` crate to an error from the library.
pub fn e<T>(result: Result<T, std::io::Error>) -> (r: Result<T, Error>)
    ensures
        result is Ok ==> r == Ok::<T, Error>(result->Ok_0),
        result is Err ==> r == Err::<T, Error>(Error::ConsoleNumberError),
{
    match result {
        Ok(x) => Ok(x),
        Err(_) => Err(Error::ConsoleNumberError),
    }
}

impl Console {
    /// Whether the console stores numbers most significant byte first.
    pub open spec fn big_endian(self) -> bool {
        self == Console::Gamecube
    }

    /// The number that the first four bytes of `b` stand for on this console.
    pub open spec fn word(self, b: Seq<u8>) -> u32 {
        if self.big_endian() {
            be_value(b) as u32
        } else {
            le_value(b) as u32
        }
    }

    /// The four bytes that stand for `n` on this console.
    pub open spec fn bytes_of(self, n: u32) -> Seq<u8> {
        if self.big_endian() {
            be_bytes(n)
        } else {
            le_bytes(n)
        }
    }

    /// Read a 32-bit unsigned integer from the first four of the given bytes.
    pub fn read_u32(&self, bytes: &[u8]) -> (r: Result<u32, Error>)
        ensures
            bytes@.len() >= 4 ==> r == Ok::<u32, Error>(self.word(bytes@)),
            bytes@.len() < 4 ==> r == Err::<u32, Error>(Error::ConsoleNumberError),
    {
        if bytes.len() < 4 {
            return Err(Error::ConsoleNumberError);
        }
        match self {
            Console::Gamecube => e(read_u32_big_endian(bytes)),
            _ => e(read_u32_little_endian(bytes)),
        }
    }

    /// Given a 32-bit unsigned integer, returns the console's representation
    /// as four bytes.
    pub fn write_u32(&self, n: u32) -> (r: Result<Vec<u8>, Error>)
        ensures
            r is Ok,
            r->Ok_0@ == self.bytes_of(n),
    {
        let mut wtr: Vec<u8> = Vec::new();
        match self {
            Console::Gamecube => {
                let _ = e(write_u32_big_endian(&mut wtr, n))?;
            },
            _ => {
                let _ = e(write_u32_little_endian(&mut wtr, n))?;
            },
        }
        Ok(wtr)
    }

    /// Read the bit pattern of a 32-bit floating-point number from the first
    /// four of the given bytes.
    pub fn read_f32(&self, bytes: &[u8]) -> (r: Result<FloatBits, Error>)
        ensures
            bytes@.len() >= 4 ==> r == Ok::<FloatBits, Error>((FloatBits { bits: self.word(bytes@) })),
            bytes@.len() < 4 ==> r == Err::<FloatBits, Error>(Error::ConsoleNumberError),
    {
        match self.read_u32(bytes) {
            Ok(bits) => Ok(FloatBits { bits }),
            Err(err) => Err(err),
        }
    }

    /// Given a 32-bit floating-point number, returns the console's
    /// representation as four bytes.
    pub fn write_f32(&self, n: FloatBits) -> (r: Result<Vec<u8>, Error>)
        ensures
            r is Ok,
            r->Ok_0@ == self.bytes_of(n.bits),
    {
        self.write_u32(n.bits)
    }
}

/// The console that a short name stands for, if it stands for one: `gc`,
/// `pc`, `ps2` or `xbox`.
pub open spec fn console_of_name(name: Seq<char>) -> Option<Console> {
    if name == "gc"@ {
        Some(Console::Gamecube)
    } else if name == "pc"@ {
        Some(Console::PC)
    } else if name == "ps2"@ {
        Some(Console::PS2)
    } else if name == "xbox"@ {
        Some(Console::Xbox)
    } else {
        None
    }
}

/// Gives the console that a short name stands for, if it stands for one.
pub fn console_from_name(name: &str) -> (r: Option<Console>)
    ensures
        r == console_of_name(name@),
{
    let name = String::from_str(name);
    if name == String::from_str("gc") {
        Some(Console::Gamecube)
    } else if name == String::from_str("pc") {
        Some(Console::PC)
    } else if name == String::from_str("ps2") {
        Some(Console::PS2)
    } else if name == String::from_str("xbox") {
        Some(Console::Xbox)
    } else {
        None
    }
}

/// A word that is written and read back on the same console is unchanged.
pub proof fn lemma_read_write_u32(c: Console, n: u32)
    ensures
        c.bytes_of(n).len() == 4,
        c.word(c.bytes_of(n)) == n,
{
}

/// Splitting `hi * 256 + lo` gives back `hi` and `lo`.
proof fn lemma_split_byte(hi: int, lo: int)
    requires
        0 <= hi,
        0 <= lo < 0x100,
    ensures
        (hi * 0x100 + lo) / 0x100 == hi,
        (hi * 0x100 + lo) % 0x100 == lo,
{
    assert((hi * 0x100 + lo) / 0x100 == hi && (hi * 0x100 + lo) % 0x100 == lo)
        by (nonlinear_arith)
        requires
            0 <= hi,
            0 <= lo < 0x100,
    ;
}

/// The digits of a number built from four bytes are those bytes.
proof fn lemma_digits(b0: int, b1: int, b2: int, b3: int)
    requires
        0 <= b0 < 0x100,
        0 <= b1 < 0x100,
        0 <= b2 < 0x100,
        0 <= b3 < 0x100,
    ensures
        ({
            let v = b0 * 0x100_0000 + b1 * 0x1_0000 + b2 * 0x100 + b3;
            &&& 0 <= v <= u32::MAX
            &&& v / 0x100_0000 == b0
            &&& v / 0x1_0000 % 0x100 == b1
            &&& v / 0x100 % 0x100 == b2
            &&& v % 0x100 == b3
        }),
{
    let x1 = b0 * 0x100 + b1;
    let x2 = x1 * 0x100 + b2;
    let v = x2 * 0x100 + b3;
    assert(v == b0 * 0x100_0000 + b1 * 0x1_0000 + b2 * 0x100 + b3);
    lemma_split_byte(x2, b3);
    lemma_split_byte(x1, b2);
    lemma_split_byte(b0, b1);
    assert(v / 0x100 == x2);
    assert(x2 / 0x100 == x1);
    assert(x1 / 0x100 == b0);
    assert(v / 0x1_0000 == x1) by {
        assert(v / 0x1_0000 == (v / 0x100) / 0x100) by (nonlinear_arith)
            requires
                0 <= v,
        ;
    }
    assert(v / 0x100_0000 == b0) by {
        assert(v / 0x100_0000 == (v / 0x1_0000) / 0x100) by (nonlinear_arith)
            requires
                0 <= v,
        ;
    }
}

/// Four bytes that are read and written back on the same console are
/// unchanged.
pub proof fn lemma_write_read_u32(c: Console, b: Seq<u8>)
    requires
        b.len() == 4,
    ensures
        c.bytes_of(c.word(b)) == b,
{
    if c.big_endian() {
        lemma_digits(b[0] as int, b[1] as int, b[2] as int, b[3] as int);
    } else {
        lemma_digits(b[3] as int, b[2] as int, b[1] as int, b[0] as int);
    }
    assert(c.bytes_of(c.word(b)) =~= b);
}

/// The bit pattern of a floating-point number that is written and read back
/// on the same console is unchanged.
pub proof fn lemma_read_write_f32(c: Console, f: FloatBits)
    ensures
        c.word(c.bytes_of(f.bits)) == f.bits,
{
    lemma_read_write_u32(c, f.bits);
}

} // verus!
