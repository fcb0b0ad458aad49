//! A cursor over a byte vector, with big-endian readers for the primitive
//! values of the cache format.

use vstd::prelude::*;

verus! {

/// Why a byte stream could not be decoded.
#[derive(Debug, Clone, Copy, PartialEq, Eq, Structural)]
pub enum DecodeError {
    /// The bytes ended before a value was complete.
    UnexpectedEnd,
    /// An entry began with an opcode that the format does not define.
    UnknownOpcode(u8),
    /// A model reference held the reserved value that stands for "no model".
    MissingModel,
    /// Bytes followed the opcode that ends the stream.
    TrailingBytes,
}

/// What a read that expected `expected` (a value and the number of bytes it
/// takes, or `None` where the bytes do not hold one) did, given the unread
/// bytes `before` and `after` it and its result `got`.
pub open spec fn read_outcome<T>(
    before: Seq<u8>,
    after: Seq<u8>,
    expected: Option<(T, nat)>,
    got: Result<T, DecodeError>,
) -> bool {
    match expected {
        Some((v, n)) => got == Ok::<T, DecodeError>(v) && after == before.skip(n as int),
        None => got == Err::<T, DecodeError>(DecodeError::UnexpectedEnd),
    }
}

/// The view of a result whose success value has a view.
pub open spec fn result_view<T: View>(r: Result<T, DecodeError>) -> Result<T::V, DecodeError> {
    match r {
        Ok(v) => Ok(v@),
        Err(e) => Err(e),
    }
}

/// The big-endian unsigned value of `s[i]`, `s[i + 1]`.
pub open spec fn u16_at(s: Seq<u8>, i: int) -> u16 {
    (s[i] as int * 256 + s[i + 1] as int) as u16
}

/// The big-endian unsigned value of the three bytes from `s[i]`.
pub open spec fn u24_at(s: Seq<u8>, i: int) -> u32 {
    ((s[i] as int * 256 + s[i + 1] as int) * 256 + s[i + 2] as int) as u32
}

/// The big-endian unsigned value of the four bytes from `s[i]`.
pub open spec fn u32_value_at(s: Seq<u8>, i: int) -> int {
    ((s[i] as int * 256 + s[i + 1] as int) * 256 + s[i + 2] as int) * 256 + s[i + 3] as int
}

/// The two's-complement reading of the four bytes from `s[i]`.
pub open spec fn i32_at(s: Seq<u8>, i: int) -> i32 {
    let v = u32_value_at(s, i);
    (if v >= 0x8000_0000 { v - 0x1_0000_0000 } else { v }) as i32
}

/// The two's-complement reading of one byte.
pub open spec fn i8_of(b: u8) -> i8 {
    (if b >= 128 { b as int - 256 } else { b as int }) as i8
}

/// An unsigned byte.
pub open spec fn spec_read_u8(s: Seq<u8>) -> Option<(u8, nat)> {
    if s.len() >= 1 { Some((s[0], 1)) } else { None }
}

/// A signed byte.
pub open spec fn spec_read_i8(s: Seq<u8>) -> Option<(i8, nat)> {
    if s.len() >= 1 { Some((i8_of(s[0]), 1)) } else { None }
}

/// A big-endian unsigned 16-bit integer.
pub open spec fn spec_read_u16(s: Seq<u8>) -> Option<(u16, nat)> {
    if s.len() >= 2 { Some((u16_at(s, 0), 2)) } else { None }
}

/// A big-endian unsigned 24-bit integer.
pub open spec fn spec_read_u24(s: Seq<u8>) -> Option<(u32, nat)> {
    if s.len() >= 3 { Some((u24_at(s, 0), 3)) } else { None }
}

/// A big-endian signed 32-bit integer.
pub open spec fn spec_read_i32(s: Seq<u8>) -> Option<(i32, nat)> {
    if s.len() >= 4 { Some((i32_at(s, 0), 4)) } else { None }
}

/// The sentinel of the two-byte form of a smart integer that stands for "none".
pub open spec fn smart_none() -> u16 {
    32767
}

/// A "smart" integer: where the high bit of the first byte is set, the four
/// bytes from there with that bit cleared; otherwise the two bytes from there,
/// of which the value 32767 stands for `None`.
pub open spec fn spec_read_smart32(s: Seq<u8>) -> Option<(Option<u32>, nat)> {
    if s.len() >= 1 && s[0] >= 128 {
        if s.len() >= 4 {
            Some((Some((u32_value_at(s, 0) - 0x8000_0000) as u32), 4))
        } else {
            None
        }
    } else if s.len() >= 2 {
        let v = u16_at(s, 0);
        Some((if v == smart_none() { None } else { Some(v as u32) }, 2))
    } else {
        None
    }
}

/// The character that Windows-1252 gives to a byte (bytes that the code page
/// leaves undefined stand for the control character of the same number).
pub open spec fn cp1252_char(b: u8) -> char {
    if b == 0x80 { '\u{20AC}' }
    else if b == 0x82 { '\u{201A}' }
    else if b == 0x83 { '\u{0192}' }
    else if b == 0x84 { '\u{201E}' }
    else if b == 0x85 { '\u{2026}' }
    else if b == 0x86 { '\u{2020}' }
    else if b == 0x87 { '\u{2021}' }
    else if b == 0x88 { '\u{02C6}' }
    else if b == 0x89 { '\u{2030}' }
    else if b == 0x8A { '\u{0160}' }
    else if b == 0x8B { '\u{2039}' }
    else if b == 0x8C { '\u{0152}' }
    else if b == 0x8E { '\u{017D}' }
    else if b == 0x91 { '\u{2018}' }
    else if b == 0x92 { '\u{2019}' }
    else if b == 0x93 { '\u{201C}' }
    else if b == 0x94 { '\u{201D}' }
    else if b == 0x95 { '\u{2022}' }
    else if b == 0x96 { '\u{2013}' }
    else if b == 0x97 { '\u{2014}' }
    else if b == 0x98 { '\u{02DC}' }
    else if b == 0x99 { '\u{2122}' }
    else if b == 0x9A { '\u{0161}' }
    else if b == 0x9B { '\u{203A}' }
    else if b == 0x9C { '\u{0153}' }
    else if b == 0x9E { '\u{017E}' }
    else if b == 0x9F { '\u{0178}' }
    else { b as char }
}

/// `s[n]` is the first zero byte of `s`.
pub open spec fn terminated_at(s: Seq<u8>, n: int) -> bool {
    &&& 0 <= n < s.len()
    &&& s[n] == 0
    &&& forall|j: int| 0 <= j < n ==> s[j] != 0
}

/// The characters of the bytes before the first zero byte.
pub open spec fn cp1252_text(s: Seq<u8>, n: int) -> Seq<char> {
    Seq::new(n as nat, |j: int| cp1252_char(s[j]))
}

/// A zero-terminated Windows-1252 string; the terminator is consumed too.
pub open spec fn spec_read_string(s: Seq<u8>) -> Option<(Seq<char>, nat)> {
    if exists|n: int| terminated_at(s, n) {
        let n = choose|n: int| terminated_at(s, n);
        Some((cp1252_text(s, n), (n + 1) as nat))
    } else {
        None
    }
}

/// At most one position is the first zero byte.
pub proof fn lemma_terminated_at_unique(s: Seq<u8>, a: int, b: int)
    requires
        terminated_at(s, a),
        terminated_at(s, b),
    ensures
        a == b,
{
}

/// The character that Windows-1252 gives to a byte.
pub fn cp1252(b: u8) -> (c: char)
    ensures
        c == cp1252_char(b),
{
    match b {
        0x80 => '\u{20AC}',
        0x82 => '\u{201A}',
        0x83 => '\u{0192}',
        0x84 => '\u{201E}',
        0x85 => '\u{2026}',
        0x86 => '\u{2020}',
        0x87 => '\u{2021}',
        0x88 => '\u{02C6}',
        0x89 => '\u{2030}',
        0x8A => '\u{0160}',
        0x8B => '\u{2039}',
        0x8C => '\u{0152}',
        0x8E => '\u{017D}',
        0x91 => '\u{2018}',
        0x92 => '\u{2019}',
        0x93 => '\u{201C}',
        0x94 => '\u{201D}',
        0x95 => '\u{2022}',
        0x96 => '\u{2013}',
        0x97 => '\u{2014}',
        0x98 => '\u{02DC}',
        0x99 => '\u{2122}',
        0x9A => '\u{0161}',
        0x9B => '\u{203A}',
        0x9C => '\u{0153}',
        0x9E => '\u{017E}',
        0x9F => '\u{0178}',
        _ => b as char,
    }
}

/// Appends a character to a string.
///
/// Trusted: calls `String::push`, whose documentation says that it appends
/// the given character to the end of the string; the contract says just that.
#[verifier::external_body]
fn push_char(s: &mut String, c: char)
    ensures
        final(s)@ == old(s)@.push(c),
{
    s.push(c);
}

/// A cursor over bytes: the bytes it holds and how many of them were read.
pub struct Buffer {
    data: Vec<u8>,
    pos: usize,
}

impl View for Buffer {
    /// The bytes not read yet.
    type V = Seq<u8>;

    closed spec fn view(&self) -> Seq<u8> {
        self.data@.skip(self.pos as int)
    }
}

impl Buffer {
    #[verifier::type_invariant]
    closed spec fn wf(self) -> bool {
        self.pos <= self.data.len()
    }

    /// A cursor at the start of `data`.
    pub fn new(data: Vec<u8>) -> (b: Buffer)
        ensures
            b@ == data@,
    {
        let b = Buffer { data, pos: 0 };
        assert(b@ =~= data@);
        b
    }

    /// The number of bytes not read yet.
    pub fn remaining(&self) -> (n: usize)
        ensures
            n == self@.len(),
    {
        proof {
            use_type_invariant(self);
        }
        self.data.len() - self.pos
    }

    /// Moves the cursor past `n` bytes that are known to be there.
    fn advance(&mut self, n: usize)
        requires
            n <= old(self)@.len(),
        ensures
            final(self)@ == old(self)@.skip(n as int),
    {
        proof {
            use_type_invariant(&*self);
        }
        self.pos = self.pos + n;
        assert(self@ =~= old(self)@.skip(n as int));
    }

    /// The byte `i` places after the cursor.
    fn peek(&self, i: usize) -> (b: u8)
        requires
            i < self@.len(),
        ensures
            b == self@[i as int],
    {
        proof {
            use_type_invariant(self);
        }
        self.data[self.pos + i]
    }

    /// Reads an unsigned byte.
    pub fn read_unsigned_byte(&mut self) -> (r: Result<u8, DecodeError>)
        ensures
            read_outcome(old(self)@, final(self)@, spec_read_u8(old(self)@), r),
    {
        if self.remaining() < 1 {
            return Err(DecodeError::UnexpectedEnd);
        }
        let b = self.peek(0);
        self.advance(1);
        Ok(b)
    }

    /// Reads a big-endian unsigned 16-bit integer.
    pub fn read_unsigned_short(&mut self) -> (r: Result<u16, DecodeError>)
        ensures
            read_outcome(old(self)@, final(self)@, spec_read_u16(old(self)@), r),
    {
        if self.remaining() < 2 {
            return Err(DecodeError::UnexpectedEnd);
        }
        let v = self.peek(0) as u16 * 256 + self.peek(1) as u16;
        self.advance(2);
        Ok(v)
    }

    /// Reads a signed byte.
    pub fn read_byte(&mut self) -> (r: Result<i8, DecodeError>)
        ensures
            read_outcome(old(self)@, final(self)@, spec_read_i8(old(self)@), r),
    {
        if self.remaining() < 1 {
            return Err(DecodeError::UnexpectedEnd);
        }
        let b = self.peek(0);
        self.advance(1);
        let v: i8 = if b >= 128 {
            (b as i16 - 256) as i8
        } else {
            b as i8
        };
        Ok(v)
    }

    /// Reads a big-endian unsigned 24-bit integer.
    pub fn read_3_unsigned_bytes(&mut self) -> (r: Result<u32, DecodeError>)
        ensures
            read_outcome(old(self)@, final(self)@, spec_read_u24(old(self)@), r),
    {
        if self.remaining() < 3 {
            return Err(DecodeError::UnexpectedEnd);
        }
        let v = (self.peek(0) as u32 * 256 + self.peek(1) as u32) * 256 + self.peek(2) as u32;
        self.advance(3);
        Ok(v)
    }

    /// The four bytes after the cursor as a big-endian unsigned integer.
    fn peek_u32(&self) -> (v: u32)
        requires
            self@.len() >= 4,
        ensures
            v == u32_value_at(self@, 0),
    {
        let b0 = self.peek(0) as u32;
        let b1 = self.peek(1) as u32;
        let b2 = self.peek(2) as u32;
        let b3 = self.peek(3) as u32;
        ((b0 * 256 + b1) * 256 + b2) * 256 + b3
    }

    /// Reads a big-endian signed 32-bit integer.
    pub fn read_int(&mut self) -> (r: Result<i32, DecodeError>)
        ensures
            read_outcome(old(self)@, final(self)@, spec_read_i32(old(self)@), r),
    {
        if self.remaining() < 4 {
            return Err(DecodeError::UnexpectedEnd);
        }
        let u = self.peek_u32();
        self.advance(4);
        let v: i32 = if u >= 0x8000_0000 {
            (u as i64 - 0x1_0000_0000i64) as i32
        } else {
            u as i32
        };
        Ok(v)
    }

    /// Reads a "smart" integer (see `spec_read_smart32`).
    pub fn read_smart32(&mut self) -> (r: Result<Option<u32>, DecodeError>)
        ensures
            read_outcome(old(self)@, final(self)@, spec_read_smart32(old(self)@), r),
    {
        let n = self.remaining();
        if n >= 1 && self.peek(0) >= 128 {
            if n < 4 {
                return Err(DecodeError::UnexpectedEnd);
            }
            let u = self.peek_u32();
            self.advance(4);
            Ok(Some(u - 0x8000_0000))
        } else {
            if n < 2 {
                return Err(DecodeError::UnexpectedEnd);
            }
            let v = self.peek(0) as u16 * 256 + self.peek(1) as u16;
            self.advance(2);
            if v == 32767 {
                Ok(None)
            } else {
                Ok(Some(v as u32))
            }
        }
    }

    /// Reads the index mask of a recolouring or retexturing: a big-endian
    /// unsigned 16-bit integer.
    pub fn read_masked_index(&mut self) -> (r: Result<u16, DecodeError>)
        ensures
            read_outcome(old(self)@, final(self)@, spec_read_u16(old(self)@), r),
    {
        self.read_unsigned_short()
    }

    /// Reads a zero-terminated Windows-1252 string.
    pub fn read_string(&mut self) -> (r: Result<String, DecodeError>)
        ensures
            read_outcome(old(self)@, final(self)@, spec_read_string(old(self)@), result_view(r)),
    {
        let ghost s = self@;
        let n = self.remaining();
        let mut text = String::new();
        let mut i: usize = 0;
        while i < n
            invariant
                self@ == s,
                s == old(self)@,
                n == s.len(),
                i <= n,
                forall|j: int| 0 <= j < i ==> s[j] != 0,
                text@ == cp1252_text(s, i as int),
            decreases n - i,
        {
            let b = self.peek(i);
            if b == 0 {
                proof {
                    assert(terminated_at(s, i as int));
                    let m = choose|m: int| terminated_at(s, m);
                    lemma_terminated_at_unique(s, m, i as int);
                }
                self.advance(i + 1);
                return Ok(text);
            }
            push_char(&mut text, cp1252(b));
            i = i + 1;
            assert(text@ =~= cp1252_text(s, i as int));
        }
        assert(!exists|m: int| terminated_at(s, m));
        Err(DecodeError::UnexpectedEnd)
    }
}

} // verus!
