//! The binary module loader: it decodes a byte stream into a
//! [`Module`], validating structural well-formedness only.
//!
//! The stream starts with a fixed four-byte magic value and a four-byte
//! little-endian version, and continues as a sequence of sections: one id
//! byte, an unsigned base-128 length, and exactly that many payload bytes.
//! All indices, counts and constant operands use base-128 little-endian
//! variable-length integers, unsigned except constant operands, which are
//! signed. Strings are a byte count followed by that many UTF-8 bytes.

use vstd::prelude::*;
use vstd::utf8::{decode_utf8, valid_utf8};

use crate::Error;
use crate::module::Module;

verus! {

/// The fixed magic value a module stream must start with.
pub const EXPECTED_MAGIC: u32 = 0x6D736100;

/// The little-endian unsigned 32-bit integer held by four bytes.
pub open spec fn spec_le_u32(b0: u8, b1: u8, b2: u8, b3: u8) -> int {
    b0 as int + b1 as int * 0x100 + b2 as int * 0x10000 + b3 as int * 0x1000000
}

/// Reads a little-endian unsigned 32-bit integer from the first four bytes
/// of `buf`.
///
/// Relies on byteorder's `LittleEndian::read_u32`, which reads
/// `u32::from_le_bytes` of the first four bytes and panics only when fewer
/// than four are given.
#[verifier::external_body]
fn le_read_u32(buf: &[u8]) -> (r: u32)
    requires
        buf@.len() >= 4,
    ensures
        r == spec_le_u32(buf@[0], buf@[1], buf@[2], buf@[3]),
{
    <byteorder::LittleEndian as byteorder::ByteOrder>::read_u32(buf)
}

/// Decodes a byte vector as UTF-8.
///
/// Relies on `String::from_utf8`, which succeeds exactly on valid UTF-8 and
/// decodes it; stated over vstd's own UTF-8 specification.
#[verifier::external_body]
pub(crate) fn string_from_utf8(bytes: Vec<u8>) -> (r: Option<String>)
    ensures
        r is Some <==> valid_utf8(bytes@),
        r matches Some(s) ==> s@ == decode_utf8(bytes@),
{
    String::from_utf8(bytes).ok()
}

/// The power of two used for the base-128 group at `shift`.
pub open spec fn spec_leb_mult(shift: int) -> int {
    if shift == 0 {
        1
    } else if shift == 7 {
        0x80
    } else if shift == 14 {
        0x4000
    } else if shift == 21 {
        0x200000
    } else {
        0x10000000
    }
}

/// The unsigned base-128 little-endian integer starting at `pos`, whose
/// remaining groups sit at bit position `shift`: its value and the position
/// after it. A fifth group with a continuation bit or with value bits above
/// the 32-bit range is malformed; a missing byte is a truncation.
pub open spec fn spec_parse_uleb(bytes: Seq<u8>, pos: int, shift: int) -> Result<(int, int), Error>
    decreases 28 - shift,
{
    if !(0 <= shift <= 28 && shift % 7 == 0) {
        Err(Error::InvalidModule)
    } else if pos < 0 || pos >= bytes.len() {
        Err(Error::UnexpectedEof)
    } else {
        let b = bytes[pos];
        let low = (b & 0x7f) as int;
        if b < 0x80 {
            if shift == 28 && b >= 0x10 {
                Err(Error::InvalidModule)
            } else {
                Ok((low * spec_leb_mult(shift), pos + 1))
            }
        } else if shift == 28 {
            Err(Error::InvalidModule)
        } else {
            match spec_parse_uleb(bytes, pos + 1, shift + 7) {
                Ok((rest, end)) => Ok((low * spec_leb_mult(shift) + rest, end)),
                Err(e) => Err(e),
            }
        }
    }
}

/// An unsigned base-128 value at bit position `shift` leaves headroom of at
/// least one bit group: it never reaches `2^32 - 2^shift`.
pub proof fn lemma_uleb_bound(bytes: Seq<u8>, pos: int, shift: int)
    ensures
        spec_parse_uleb(bytes, pos, shift) matches Ok((v, end)) ==> 0 <= v <= 0x1_0000_0000
            - spec_leb_mult(shift) && pos < end <= bytes.len(),
    decreases 28 - shift,
{
    if 0 <= shift <= 28 && shift % 7 == 0 && 0 <= pos < bytes.len() {
        assert(shift == 0 || shift == 7 || shift == 14 || shift == 21 || shift == 28);
        let b = bytes[pos];
        if b >= 0x80 && shift < 28 {
            lemma_uleb_bound(bytes, pos + 1, shift + 7);
            assert(spec_leb_mult(shift + 7) == 0x80 * spec_leb_mult(shift));
        }
        assert((b & 0x7f) < 0x80) by (bit_vector);
        assert(b < 0x80 ==> (b & 0x7f) == b) by (bit_vector);
    }
}

/// The signed base-128 little-endian integer starting at `pos`, with its
/// remaining groups at bit position `shift`, as the 32-bit two's-complement
/// bit pattern of its value: the pattern and the position after it. The
/// final group's sign bit extends through the upper bits; a fifth group
/// must agree with its own sign bit in the bits beyond the 32-bit range.
pub open spec fn spec_parse_sleb(bytes: Seq<u8>, pos: int, shift: int) -> Result<(int, int), Error>
    decreases 28 - shift,
{
    if !(0 <= shift <= 28 && shift % 7 == 0) {
        Err(Error::InvalidModule)
    } else if pos < 0 || pos >= bytes.len() {
        Err(Error::UnexpectedEof)
    } else {
        let b = bytes[pos];
        let low = (b & 0x7f) as int;
        if shift == 28 {
            if b >= 0x80 {
                Err(Error::InvalidModule)
            } else if (b & 0x78) == 0 || (b & 0x78) == 0x78 {
                Ok((((b & 0x0f) as int) * 0x10000000, pos + 1))
            } else {
                Err(Error::InvalidModule)
            }
        } else if b < 0x80 {
            if (b & 0x40) == 0x40 {
                Ok((low * spec_leb_mult(shift) + (0x1_0000_0000 - spec_leb_mult(shift) * 0x80), pos
                    + 1))
            } else {
                Ok((low * spec_leb_mult(shift), pos + 1))
            }
        } else {
            match spec_parse_sleb(bytes, pos + 1, shift + 7) {
                Ok((rest, end)) => Ok((low * spec_leb_mult(shift) + rest, end)),
                Err(e) => Err(e),
            }
        }
    }
}

/// A signed base-128 bit pattern at bit position `shift` stays within the
/// 32-bit range, with the same headroom as the unsigned form.
pub proof fn lemma_sleb_bound(bytes: Seq<u8>, pos: int, shift: int)
    ensures
        spec_parse_sleb(bytes, pos, shift) matches Ok((v, end)) ==> 0 <= v <= 0x1_0000_0000
            - spec_leb_mult(shift) && pos < end <= bytes.len(),
    decreases 28 - shift,
{
    if 0 <= shift <= 28 && shift % 7 == 0 && 0 <= pos < bytes.len() {
        assert(shift == 0 || shift == 7 || shift == 14 || shift == 21 || shift == 28);
        let b = bytes[pos];
        if b >= 0x80 && shift < 28 {
            lemma_sleb_bound(bytes, pos + 1, shift + 7);
            assert(spec_leb_mult(shift + 7) == 0x80 * spec_leb_mult(shift));
        }
        assert((b & 0x7f) < 0x80) by (bit_vector);
        assert(b < 0x80 ==> (b & 0x7f) == b) by (bit_vector);
        assert((b & 0x0f) < 0x10) by (bit_vector);
        assert((b & 0x40) == 0x40 ==> (b & 0x7f) >= 0x40) by (bit_vector);
    }
}

/// A decoded module header: the stream's version number.
pub struct ModuleHeader {
    pub version: u32,
}

/// The kind of one section, from its id byte. An id this loader does not
/// know is treated as a custom section and skipped.
#[derive(Clone, Copy, PartialEq, Eq, Structural, Debug)]
pub enum SectionId {
    Custom,
    Type,
    Import,
    Function,
    Export,
    Code,
    Data,
    Name,
}

/// The meaning of a section id byte.
pub open spec fn spec_section_id(b: u8) -> SectionId {
    if b == 1 {
        SectionId::Type
    } else if b == 2 {
        SectionId::Import
    } else if b == 3 {
        SectionId::Function
    } else if b == 7 {
        SectionId::Export
    } else if b == 10 {
        SectionId::Code
    } else if b == 11 {
        SectionId::Data
    } else if b == 12 {
        SectionId::Name
    } else {
        SectionId::Custom
    }
}

impl SectionId {
    /// Decodes a section id byte; unknown ids are custom sections.
    pub fn from_u8(b: u8) -> (r: SectionId)
        ensures
            r == spec_section_id(b),
    {
        match b {
            1 => SectionId::Type,
            2 => SectionId::Import,
            3 => SectionId::Function,
            7 => SectionId::Export,
            10 => SectionId::Code,
            11 => SectionId::Data,
            12 => SectionId::Name,
            _ => SectionId::Custom,
        }
    }
}

/// One section's framing: its kind and its payload length in bytes.
#[derive(Clone, Copy, PartialEq, Eq, Structural, Debug)]
pub struct SectionHeader {
    pub id: SectionId,
    pub size: u32,
}

/// A cursor over a byte stream.
pub struct Reader {
    pub data: Vec<u8>,
    pub pos: usize,
}

/// A structure that can be read out of a bounded section payload. The
/// exact content contract of each section lives on its own `parse`
/// function, which every implementation delegates to; the trait promises
/// the framing facts a generic caller needs.
pub trait Section: Sized {
    fn read(reader: &mut Reader) -> (r: Result<Self, Error>)
        requires
            old(reader).wf(),
        ensures
            final(reader).wf(),
            final(reader).data@ == old(reader).data@,
    ;
}

impl Reader {
    /// The cursor never passes the end of the stream.
    pub open spec fn wf(&self) -> bool {
        self.pos <= self.data@.len()
    }

    pub fn new(source: Vec<u8>) -> (r: Reader)
        ensures
            r.data@ == source@,
            r.pos == 0,
            r.wf(),
    {
        Reader { data: source, pos: 0 }
    }

    /// Reads one byte, failing on a spent stream.
    pub(crate) fn read_u8(&mut self) -> (r: Result<u8, Error>)
        requires
            old(self).wf(),
        ensures
            final(self).wf(),
            final(self).data@ == old(self).data@,
            match r {
                Ok(b) => old(self).pos < old(self).data@.len() && b == old(self).data@[old(
                    self,
                ).pos as int] && final(self).pos == old(self).pos + 1,
                Err(e) => old(self).pos == old(self).data@.len() && e == Error::UnexpectedEof
                    && final(self).pos == old(self).pos,
            },
    {
        if self.pos < self.data.len() {
            let b = self.data[self.pos];
            self.pos = self.pos + 1;
            Ok(b)
        } else {
            Err(Error::UnexpectedEof)
        }
    }

    /// Reads an unsigned base-128 integer whose remaining groups sit at bit
    /// position `shift`.
    fn read_uleb_from(&mut self, shift: usize) -> (r: Result<u32, Error>)
        requires
            old(self).wf(),
            shift % 7 == 0,
            shift <= 28,
        ensures
            final(self).wf(),
            final(self).data@ == old(self).data@,
            match spec_parse_uleb(old(self).data@, old(self).pos as int, shift as int) {
                Ok((v, end)) => r matches Ok(x) && x == v && final(self).pos == end,
                Err(e) => r matches Err(e2) && e2 == e,
            },
        decreases 28 - shift,
    {
        proof {
            lemma_uleb_bound(old(self).data@, old(self).pos as int, shift as int);
        }
        let b = match self.read_u8() {
            Ok(b) => b,
            Err(e) => {
                return Err(e);
            },
        };
        let low = b & 0x7f;
        proof {
            assert((b & 0x7f) < 0x80) by (bit_vector);
            assert(b < 0x80 ==> (b & 0x7f) == b) by (bit_vector);
        }
        let mult: u32 = if shift == 0 {
            1
        } else if shift == 7 {
            0x80
        } else if shift == 14 {
            0x4000
        } else if shift == 21 {
            0x200000
        } else {
            0x10000000
        };
        if b < 0x80 {
            if shift == 28 && b >= 0x10 {
                Err(Error::InvalidModule)
            } else {
                Ok((low as u32) * mult)
            }
        } else if shift == 28 {
            Err(Error::InvalidModule)
        } else {
            proof {
                lemma_uleb_bound(self.data@, self.pos as int, shift + 7);
            }
            match self.read_uleb_from(shift + 7) {
                Ok(rest) => Ok((low as u32) * mult + rest),
                Err(e) => Err(e),
            }
        }
    }

    /// Reads an unsigned base-128 32-bit integer.
    pub(crate) fn read_uleb32(&mut self) -> (r: Result<u32, Error>)
        requires
            old(self).wf(),
        ensures
            final(self).wf(),
            final(self).data@ == old(self).data@,
            match spec_parse_uleb(old(self).data@, old(self).pos as int, 0) {
                Ok((v, end)) => r matches Ok(x) && x == v && final(self).pos == end,
                Err(e) => r matches Err(e2) && e2 == e,
            },
    {
        self.read_uleb_from(0)
    }

    /// Reads a signed base-128 32-bit integer as its two's-complement bit
    /// pattern.
    fn read_sleb_from(&mut self, shift: usize) -> (r: Result<u32, Error>)
        requires
            old(self).wf(),
            shift % 7 == 0,
            shift <= 28,
        ensures
            final(self).wf(),
            final(self).data@ == old(self).data@,
            match spec_parse_sleb(old(self).data@, old(self).pos as int, shift as int) {
                Ok((v, end)) => r matches Ok(x) && x == v && final(self).pos == end,
                Err(e) => r matches Err(e2) && e2 == e,
            },
        decreases 28 - shift,
    {
        proof {
            lemma_sleb_bound(old(self).data@, old(self).pos as int, shift as int);
        }
        let b = match self.read_u8() {
            Ok(b) => b,
            Err(e) => {
                return Err(e);
            },
        };
        let low = b & 0x7f;
        proof {
            assert((b & 0x7f) < 0x80) by (bit_vector);
            assert(b < 0x80 ==> (b & 0x7f) == b) by (bit_vector);
            assert((b & 0x0f) < 0x10) by (bit_vector);
        }
        let mult: u32 = if shift == 0 {
            1
        } else if shift == 7 {
            0x80
        } else if shift == 14 {
            0x4000
        } else if shift == 21 {
            0x200000
        } else {
            0x10000000
        };
        if shift == 28 {
            if b >= 0x80 {
                Err(Error::InvalidModule)
            } else if (b & 0x78) == 0 || (b & 0x78) == 0x78 {
                Ok(((b & 0x0f) as u32) * 0x10000000)
            } else {
                Err(Error::InvalidModule)
            }
        } else if b < 0x80 {
            if (b & 0x40) == 0x40 {
                // Sign-extend: set every bit from the end of this group up.
                let ext: u32 = 0xFFFF_FFFFu32 - (mult * 0x80 - 1);
                Ok((low as u32) * mult + ext)
            } else {
                Ok((low as u32) * mult)
            }
        } else {
            proof {
                lemma_sleb_bound(self.data@, self.pos as int, shift + 7);
            }
            match self.read_sleb_from(shift + 7) {
                Ok(rest) => Ok((low as u32) * mult + rest),
                Err(e) => Err(e),
            }
        }
    }

    /// Reads a signed base-128 32-bit constant operand, as the bit pattern
    /// of its value.
    pub(crate) fn read_sleb32(&mut self) -> (r: Result<u32, Error>)
        requires
            old(self).wf(),
        ensures
            final(self).wf(),
            final(self).data@ == old(self).data@,
            match spec_parse_sleb(old(self).data@, old(self).pos as int, 0) {
                Ok((v, end)) => r matches Ok(x) && x == v && final(self).pos == end,
                Err(e) => r matches Err(e2) && e2 == e,
            },
    {
        self.read_sleb_from(0)
    }

    /// Reads the fixed module header: the magic value, which must match,
    /// and the version.
    pub fn read_module_header(&mut self) -> (r: Result<ModuleHeader, Error>)
        requires
            old(self).wf(),
        ensures
            final(self).wf(),
            final(self).data@ == old(self).data@,
            ({
                let bytes = old(self).data@;
                let p = old(self).pos as int;
                match r {
                    Ok(h) => p + 8 <= bytes.len() && spec_le_u32(
                        bytes[p],
                        bytes[p + 1],
                        bytes[p + 2],
                        bytes[p + 3],
                    ) == EXPECTED_MAGIC && h.version == spec_le_u32(
                        bytes[p + 4],
                        bytes[p + 5],
                        bytes[p + 6],
                        bytes[p + 7],
                    ) && final(self).pos == p + 8,
                    Err(e) => (e == Error::UnexpectedEof && bytes.len() - p < 8 && (bytes.len()
                        - p < 4 || spec_le_u32(
                        bytes[p],
                        bytes[p + 1],
                        bytes[p + 2],
                        bytes[p + 3],
                    ) == EXPECTED_MAGIC)) || (e
                        == Error::InvalidModule && p + 4 <= bytes.len() && spec_le_u32(
                        bytes[p],
                        bytes[p + 1],
                        bytes[p + 2],
                        bytes[p + 3],
                    ) != EXPECTED_MAGIC),
                }
            }),
    {
        let magic = match self.read_exact4() {
            Ok(w) => w,
            Err(e) => {
                return Err(e);
            },
        };
        if !(magic == EXPECTED_MAGIC) {
            return Err(Error::InvalidModule);
        }
        let version = match self.read_exact4() {
            Ok(w) => w,
            Err(e) => {
                return Err(e);
            },
        };
        Ok(ModuleHeader { version })
    }

    /// Reads four bytes as a little-endian 32-bit integer.
    fn read_exact4(&mut self) -> (r: Result<u32, Error>)
        requires
            old(self).wf(),
        ensures
            final(self).wf(),
            final(self).data@ == old(self).data@,
            ({
                let bytes = old(self).data@;
                let p = old(self).pos as int;
                match r {
                    Ok(w) => p + 4 <= bytes.len() && w == spec_le_u32(
                        bytes[p],
                        bytes[p + 1],
                        bytes[p + 2],
                        bytes[p + 3],
                    ) && final(self).pos == p + 4,
                    Err(e) => e == Error::UnexpectedEof && bytes.len() - p < 4 && final(self).pos
                        == p,
                }
            }),
    {
        if self.data.len() - self.pos < 4 {
            return Err(Error::UnexpectedEof);
        }
        let mut buf: Vec<u8> = Vec::new();
        buf.push(self.data[self.pos]);
        buf.push(self.data[self.pos + 1]);
        buf.push(self.data[self.pos + 2]);
        buf.push(self.data[self.pos + 3]);
        let w = le_read_u32(buf.as_slice());
        self.pos = self.pos + 4;
        Ok(w)
    }

    /// Reads the next section's framing. A stream that ends cleanly between
    /// sections yields `None`; one that ends inside the framing is
    /// truncated.
    pub fn read_section_header(&mut self) -> (r: Result<Option<SectionHeader>, Error>)
        requires
            old(self).wf(),
        ensures
            final(self).wf(),
            final(self).data@ == old(self).data@,
            ({
                let bytes = old(self).data@;
                let p = old(self).pos as int;
                match r {
                    Ok(None) => p == bytes.len() && final(self).pos == p,
                    Ok(Some(h)) => p < bytes.len() && h.id == spec_section_id(bytes[p])
                        && (spec_parse_uleb(bytes, p + 1, 0) matches Ok((v, end)) && h.size == v
                        && final(self).pos == end),
                    Err(e) => p < bytes.len() && (spec_parse_uleb(bytes, p + 1, 0) matches Err(e2)
                        && e == e2),
                }
            }),
    {
        let id = match self.read_u8() {
            Ok(b) => SectionId::from_u8(b),
            Err(_) => {
                return Ok(None);
            },
        };
        let size = match self.read_uleb32() {
            Ok(s) => s,
            Err(e) => {
                return Err(e);
            },
        };
        Ok(Some(SectionHeader { id, size }))
    }

    /// Reads one section's payload as a bounded sub-read: the payload bytes
    /// are handed to the section parser as a stream of their own, and the
    /// cursor advances over exactly the declared size whether or not the
    /// parser consumed everything. Over- or under-reading the payload is
    /// the parser's concern, not the framing's; what each parser makes of
    /// its payload is stated on that section type's own `parse` function.
    pub fn read_section<S: Section>(&mut self, header: SectionHeader) -> (r: Result<S, Error>)
        requires
            old(self).wf(),
        ensures
            final(self).wf(),
            final(self).data@ == old(self).data@,
            old(self).data@.len() - old(self).pos < header.size ==> (r matches Err(e) && e
                == Error::UnexpectedEof && final(self).pos == old(self).pos),
            old(self).pos + header.size <= old(self).data@.len() ==> final(self).pos == old(
                self,
            ).pos + header.size,
    {
        read_section_helper::<S>(self, header)
    }

    /// Splits off the next `size` payload bytes as a stream of their own,
    /// failing on truncation.
    pub(crate) fn take(&mut self, size: u32) -> (r: Result<Reader, Error>)
        requires
            old(self).wf(),
        ensures
            final(self).wf(),
            final(self).data@ == old(self).data@,
            match r {
                Ok(sub) => old(self).pos + size <= old(self).data@.len() && sub.pos == 0 && sub.wf()
                    && sub.data@ == old(self).data@.subrange(
                    old(self).pos as int,
                    old(self).pos + size,
                ) && final(self).pos == old(self).pos + size,
                Err(e) => e == Error::UnexpectedEof && old(self).data@.len() - old(self).pos < size
                    && final(self).pos == old(self).pos,
            },
    {
        if self.data.len() - self.pos < size as usize {
            return Err(Error::UnexpectedEof);
        }
        let mut payload: Vec<u8> = Vec::new();
        let start = self.pos;
        let end = self.pos + size as usize;
        for i in start..end
            invariant
                start == old(self).pos,
                end == start + size,
                end <= self.data@.len(),
                self.data@ == old(self).data@,
                self.pos == old(self).pos,
                payload@ == self.data@.subrange(start as int, i as int),
        {
            payload.push(self.data[i]);
            proof {
                assert(self.data@.subrange(start as int, i + 1) =~= self.data@.subrange(
                    start as int,
                    i as int,
                ).push(self.data@[i as int]));
            }
        }
        self.pos = end;
        Ok(Reader { data: payload, pos: 0 })
    }
}

/// Reads one section out of a bounded payload stream.
fn read_section_helper<S: Section>(reader: &mut Reader, header: SectionHeader) -> (r: Result<
    S,
    Error,
>)
    requires
        old(reader).wf(),
    ensures
        final(reader).wf(),
        final(reader).data@ == old(reader).data@,
        old(reader).data@.len() - old(reader).pos < header.size ==> (r matches Err(e) && e
            == Error::UnexpectedEof && final(reader).pos == old(reader).pos),
        old(reader).pos + header.size <= old(reader).data@.len() ==> final(reader).pos == old(
            reader,
        ).pos + header.size,
{
    let mut sub = match reader.take(header.size) {
        Ok(s) => s,
        Err(e) => {
            return Err(e);
        },
    };
    S::read(&mut sub)
}

} // verus!
