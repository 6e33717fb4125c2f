//! The section parsers: each decodes one section's payload, and
//! [`Module::load`] drives them over a whole stream.

use vstd::prelude::*;
use vstd::utf8::{decode_utf8, valid_utf8};

use crate::Error;
use crate::module::{DataSegment, Export, FuncBody, FuncNames, FuncType, Import, Instruction,
    MemberDesc, MemoryType, Module, ModuleNames};
use crate::reader::{spec_parse_uleb, spec_parse_sleb, spec_section_id, lemma_uleb_bound,
    lemma_sleb_bound, Reader, Section, SectionHeader, SectionId, spec_le_u32, EXPECTED_MAGIC};
use crate::value::{val_type_of_byte, ValType, Value};

verus! {

/// One parsed value type and the position after it.
pub open spec fn spec_parse_valtype(bytes: Seq<u8>, pos: int) -> Result<(ValType, int), Error> {
    if pos < 0 || pos >= bytes.len() {
        Err(Error::UnexpectedEof)
    } else {
        match val_type_of_byte(bytes[pos]) {
            Some(t) => Ok((t, pos + 1)),
            None => Err(Error::InvalidModule),
        }
    }
}

/// `n` parsed value types and the position after them.
pub open spec fn spec_parse_valtypes(bytes: Seq<u8>, pos: int, n: int) -> Result<
    (Seq<ValType>, int),
    Error,
>
    decreases n,
{
    if n <= 0 {
        Ok((Seq::empty(), pos))
    } else {
        match spec_parse_valtype(bytes, pos) {
            Err(e) => Err(e),
            Ok((t, p1)) => match spec_parse_valtypes(bytes, p1, n - 1) {
                Err(e) => Err(e),
                Ok((ts, p2)) => Ok((seq![t] + ts, p2)),
            },
        }
    }
}

/// One parsed function signature: a count of parameter types, the types, a
/// count of result types, the types.
pub open spec fn spec_parse_functype(bytes: Seq<u8>, pos: int) -> Result<
    ((Seq<ValType>, Seq<ValType>), int),
    Error,
> {
    match spec_parse_uleb(bytes, pos, 0) {
        Err(e) => Err(e),
        Ok((np, p1)) => match spec_parse_valtypes(bytes, p1, np) {
            Err(e) => Err(e),
            Ok((ps, p2)) => match spec_parse_uleb(bytes, p2, 0) {
                Err(e) => Err(e),
                Ok((nr, p3)) => match spec_parse_valtypes(bytes, p3, nr) {
                    Err(e) => Err(e),
                    Ok((rs, p4)) => Ok(((ps, rs), p4)),
                },
            },
        },
    }
}

/// One parsed instruction: a constant operand (signed) or a call (unsigned
/// function index).
pub open spec fn spec_parse_instr(bytes: Seq<u8>, pos: int) -> Result<(Instruction, int), Error> {
    if pos < 0 || pos >= bytes.len() {
        Err(Error::UnexpectedEof)
    } else if bytes[pos] == 0x41 {
        match spec_parse_sleb(bytes, pos + 1, 0) {
            Err(e) => Err(e),
            Ok((v, p1)) => Ok((Instruction::Const(Value::I32(v as u32)), p1)),
        }
    } else if bytes[pos] == 0x10 {
        match spec_parse_uleb(bytes, pos + 1, 0) {
            Err(e) => Err(e),
            Ok((v, p1)) => Ok((Instruction::Call(v as u32), p1)),
        }
    } else {
        Err(Error::InvalidModule)
    }
}

/// `n` parsed instructions and the position after them.
pub open spec fn spec_parse_instrs(bytes: Seq<u8>, pos: int, n: int) -> Result<
    (Seq<Instruction>, int),
    Error,
>
    decreases n,
{
    if n <= 0 {
        Ok((Seq::empty(), pos))
    } else {
        match spec_parse_instr(bytes, pos) {
            Err(e) => Err(e),
            Ok((t, p1)) => match spec_parse_instrs(bytes, p1, n - 1) {
                Err(e) => Err(e),
                Ok((ts, p2)) => Ok((seq![t] + ts, p2)),
            },
        }
    }
}

/// `n` raw payload bytes and the position after them.
pub open spec fn spec_parse_bytes(bytes: Seq<u8>, pos: int, n: int) -> Result<(Seq<u8>, int), Error> {
    if pos < 0 || pos + n > bytes.len() {
        Err(Error::UnexpectedEof)
    } else {
        Ok((bytes.subrange(pos, pos + n), pos + n))
    }
}

/// One parsed name: a byte count, then that many bytes of UTF-8.
pub open spec fn spec_parse_string(bytes: Seq<u8>, pos: int) -> Result<(Seq<char>, int), Error> {
    match spec_parse_uleb(bytes, pos, 0) {
        Err(e) => Err(e),
        Ok((n, p1)) => match spec_parse_bytes(bytes, p1, n) {
            Err(e) => Err(e),
            Ok((bs, p2)) => if valid_utf8(bs) {
                Ok((decode_utf8(bs), p2))
            } else {
                Err(Error::InvalidModule)
            },
        },
    }
}

/// One parsed memory shape: a flag byte saying whether a maximum follows,
/// then the minimum and optionally the maximum, in bytes.
pub open spec fn spec_parse_limits(bytes: Seq<u8>, pos: int) -> Result<(MemoryType, int), Error> {
    if pos < 0 || pos >= bytes.len() {
        Err(Error::UnexpectedEof)
    } else if bytes[pos] == 0 {
        match spec_parse_uleb(bytes, pos + 1, 0) {
            Err(e) => Err(e),
            Ok((mn, p1)) => Ok((MemoryType { min: mn as usize, max: None }, p1)),
        }
    } else if bytes[pos] == 1 {
        match spec_parse_uleb(bytes, pos + 1, 0) {
            Err(e) => Err(e),
            Ok((mn, p1)) => match spec_parse_uleb(bytes, p1, 0) {
                Err(e) => Err(e),
                Ok((mx, p2)) => Ok(
                    (MemoryType { min: mn as usize, max: Some(mx as usize) }, p2),
                ),
            },
        }
    } else {
        Err(Error::InvalidModule)
    }
}

/// One parsed member description: a kind byte, then a function index or a
/// memory shape.
pub open spec fn spec_parse_desc(bytes: Seq<u8>, pos: int) -> Result<(MemberDesc, int), Error> {
    if pos < 0 || pos >= bytes.len() {
        Err(Error::UnexpectedEof)
    } else if bytes[pos] == 0 {
        match spec_parse_uleb(bytes, pos + 1, 0) {
            Err(e) => Err(e),
            Ok((idx, p1)) => Ok((MemberDesc::Function(idx as u32), p1)),
        }
    } else if bytes[pos] == 2 {
        match spec_parse_limits(bytes, pos + 1) {
            Err(e) => Err(e),
            Ok((mt, p1)) => Ok((MemberDesc::Memory(mt), p1)),
        }
    } else {
        Err(Error::InvalidModule)
    }
}

impl ValType {
    /// Reads one value type from its one-byte encoding.
    pub fn read(reader: &mut Reader) -> (r: Result<ValType, Error>)
        requires
            old(reader).wf(),
        ensures
            final(reader).wf(),
            final(reader).data@ == old(reader).data@,
            match spec_parse_valtype(old(reader).data@, old(reader).pos as int) {
                Ok((t, end)) => r matches Ok(t2) && t2 == t && final(reader).pos == end,
                Err(e) => r matches Err(e2) && e2 == e,
            },
    {
        reader.read_valtype()
    }
}

impl Reader {
    /// Reads one value type byte.
    pub fn read_valtype(&mut self) -> (r: Result<ValType, Error>)
        requires
            old(self).wf(),
        ensures
            final(self).wf(),
            final(self).data@ == old(self).data@,
            match spec_parse_valtype(old(self).data@, old(self).pos as int) {
                Ok((t, end)) => r matches Ok(t2) && t2 == t && final(self).pos == end,
                Err(e) => r matches Err(e2) && e2 == e,
            },
    {
        let b = match self.read_u8() {
            Ok(b) => b,
            Err(e) => {
                return Err(e);
            },
        };
        ValType::from_u8(b)
    }

    /// Reads `n` value types.
    fn read_valtypes(&mut self, n: u32) -> (r: Result<Vec<ValType>, Error>)
        requires
            old(self).wf(),
        ensures
            final(self).wf(),
            final(self).data@ == old(self).data@,
            match spec_parse_valtypes(old(self).data@, old(self).pos as int, n as int) {
                Ok((ts, end)) => r matches Ok(v) && v@ == ts && final(self).pos == end,
                Err(e) => r matches Err(e2) && e2 == e,
            },
        decreases n,
    {
        if n == 0 {
            return Ok(Vec::new());
        }
        let t = match self.read_valtype() {
            Ok(t) => t,
            Err(e) => {
                return Err(e);
            },
        };
        match self.read_valtypes(n - 1) {
            Ok(mut rest) => {
                let ghost rest0 = rest@;
                rest.insert(0, t);
                proof {
                    assert(rest@ =~= seq![t] + rest0);
                }
                Ok(rest)
            },
            Err(e) => Err(e),
        }
    }

    /// Reads one function signature.
    fn read_functype(&mut self) -> (r: Result<FuncType, Error>)
        requires
            old(self).wf(),
        ensures
            final(self).wf(),
            final(self).data@ == old(self).data@,
            match spec_parse_functype(old(self).data@, old(self).pos as int) {
                Ok((t, end)) => r matches Ok(ft) && ft.params@ == t.0 && ft.results@ == t.1
                    && final(self).pos == end,
                Err(e) => r matches Err(e2) && e2 == e,
            },
    {
        let np = match self.read_uleb32() {
            Ok(v) => v,
            Err(e) => {
                return Err(e);
            },
        };
        let params = match self.read_valtypes(np) {
            Ok(v) => v,
            Err(e) => {
                return Err(e);
            },
        };
        let nr = match self.read_uleb32() {
            Ok(v) => v,
            Err(e) => {
                return Err(e);
            },
        };
        let results = match self.read_valtypes(nr) {
            Ok(v) => v,
            Err(e) => {
                return Err(e);
            },
        };
        Ok(FuncType { params, results })
    }

    /// Reads one instruction.
    fn read_instr(&mut self) -> (r: Result<Instruction, Error>)
        requires
            old(self).wf(),
        ensures
            final(self).wf(),
            final(self).data@ == old(self).data@,
            match spec_parse_instr(old(self).data@, old(self).pos as int) {
                Ok((t, end)) => r matches Ok(t2) && t2 == t && final(self).pos == end,
                Err(e) => r matches Err(e2) && e2 == e,
            },
    {
        let op = match self.read_u8() {
            Ok(b) => b,
            Err(e) => {
                return Err(e);
            },
        };
        if op == 0x41 {
            match self.read_sleb32() {
                Ok(v) => Ok(Instruction::Const(Value::I32(v))),
                Err(e) => Err(e),
            }
        } else if op == 0x10 {
            match self.read_uleb32() {
                Ok(v) => Ok(Instruction::Call(v)),
                Err(e) => Err(e),
            }
        } else {
            Err(Error::InvalidModule)
        }
    }

    /// Reads `n` instructions.
    fn read_instrs(&mut self, n: u32) -> (r: Result<Vec<Instruction>, Error>)
        requires
            old(self).wf(),
        ensures
            final(self).wf(),
            final(self).data@ == old(self).data@,
            match spec_parse_instrs(old(self).data@, old(self).pos as int, n as int) {
                Ok((ts, end)) => r matches Ok(v) && v@ == ts && final(self).pos == end,
                Err(e) => r matches Err(e2) && e2 == e,
            },
        decreases n,
    {
        if n == 0 {
            return Ok(Vec::new());
        }
        let t = match self.read_instr() {
            Ok(t) => t,
            Err(e) => {
                return Err(e);
            },
        };
        match self.read_instrs(n - 1) {
            Ok(mut rest) => {
                let ghost rest0 = rest@;
                rest.insert(0, t);
                proof {
                    assert(rest@ =~= seq![t] + rest0);
                }
                Ok(rest)
            },
            Err(e) => Err(e),
        }
    }

    /// Reads `n` raw payload bytes.
    fn read_bytes(&mut self, n: u32) -> (r: Result<Vec<u8>, Error>)
        requires
            old(self).wf(),
        ensures
            final(self).wf(),
            final(self).data@ == old(self).data@,
            match spec_parse_bytes(old(self).data@, old(self).pos as int, n as int) {
                Ok((bs, end)) => r matches Ok(v) && v@ == bs && final(self).pos == end,
                Err(e) => r matches Err(e2) && e2 == e,
            },
    {
        if self.data.len() - self.pos < n as usize {
            return Err(Error::UnexpectedEof);
        }
        let start = self.pos;
        let end = self.pos + n as usize;
        let mut out: Vec<u8> = Vec::new();
        for i in start..end
            invariant
                start <= i <= end <= self.data@.len(),
                self.data@ == old(self).data@,
                self.pos == old(self).pos,
                start == old(self).pos,
                end == start + n,
                out@ == self.data@.subrange(start as int, i as int),
        {
            out.push(self.data[i]);
            proof {
                assert(self.data@.subrange(start as int, i + 1) =~= self.data@.subrange(
                    start as int,
                    i as int,
                ).push(self.data@[i as int]));
            }
        }
        self.pos = end;
        Ok(out)
    }

    /// Reads one length-prefixed UTF-8 name.
    fn read_string(&mut self) -> (r: Result<String, Error>)
        requires
            old(self).wf(),
        ensures
            final(self).wf(),
            final(self).data@ == old(self).data@,
            match spec_parse_string(old(self).data@, old(self).pos as int) {
                Ok((cs, end)) => r matches Ok(s) && s@ == cs && final(self).pos == end,
                Err(e) => r matches Err(e2) && e2 == e,
            },
    {
        let n = match self.read_uleb32() {
            Ok(v) => v,
            Err(e) => {
                return Err(e);
            },
        };
        let bs = match self.read_bytes(n) {
            Ok(v) => v,
            Err(e) => {
                return Err(e);
            },
        };
        match crate::reader::string_from_utf8(bs) {
            Some(s) => Ok(s),
            None => Err(Error::InvalidModule),
        }
    }

    /// Reads one memory shape.
    fn read_limits(&mut self) -> (r: Result<MemoryType, Error>)
        requires
            old(self).wf(),
        ensures
            final(self).wf(),
            final(self).data@ == old(self).data@,
            match spec_parse_limits(old(self).data@, old(self).pos as int) {
                Ok((mt, end)) => r matches Ok(m2) && m2 == mt && final(self).pos == end,
                Err(e) => r matches Err(e2) && e2 == e,
            },
    {
        let flag = match self.read_u8() {
            Ok(b) => b,
            Err(e) => {
                return Err(e);
            },
        };
        if flag == 0 {
            match self.read_uleb32() {
                Ok(mn) => Ok(MemoryType { min: mn as usize, max: None }),
                Err(e) => Err(e),
            }
        } else if flag == 1 {
            let mn = match self.read_uleb32() {
                Ok(v) => v,
                Err(e) => {
                    return Err(e);
                },
            };
            match self.read_uleb32() {
                Ok(mx) => Ok(MemoryType { min: mn as usize, max: Some(mx as usize) }),
                Err(e) => Err(e),
            }
        } else {
            Err(Error::InvalidModule)
        }
    }

    /// Reads one member description.
    fn read_desc(&mut self) -> (r: Result<MemberDesc, Error>)
        requires
            old(self).wf(),
        ensures
            final(self).wf(),
            final(self).data@ == old(self).data@,
            match spec_parse_desc(old(self).data@, old(self).pos as int) {
                Ok((d, end)) => r matches Ok(d2) && d2 == d && final(self).pos == end,
                Err(e) => r matches Err(e2) && e2 == e,
            },
    {
        let kind = match self.read_u8() {
            Ok(b) => b,
            Err(e) => {
                return Err(e);
            },
        };
        if kind == 0 {
            match self.read_uleb32() {
                Ok(idx) => Ok(MemberDesc::Function(idx)),
                Err(e) => Err(e),
            }
        } else if kind == 2 {
            match self.read_limits() {
                Ok(mt) => Ok(MemberDesc::Memory(mt)),
                Err(e) => Err(e),
            }
        } else {
            Err(Error::InvalidModule)
        }
    }
}

/// Whether a decoded signature carries exactly the parsed type lists.
pub open spec fn functype_reflects(ft: FuncType, t: (Seq<ValType>, Seq<ValType>)) -> bool {
    ft.params@ == t.0 && ft.results@ == t.1
}

/// Whether a decoded body carries exactly the parsed locals and code.
pub open spec fn body_reflects(b: FuncBody, t: (Seq<ValType>, Seq<Instruction>)) -> bool {
    b.locals@ == t.0 && b.body@ == t.1
}

/// Whether a decoded import carries exactly the parsed names and member.
pub open spec fn import_reflects(i: Import, t: (Seq<char>, Seq<char>, MemberDesc)) -> bool {
    i.module@ == t.0 && i.name@ == t.1 && i.description == t.2
}

/// Whether a decoded export carries exactly the parsed name and member.
pub open spec fn export_reflects(e: Export, t: (Seq<char>, MemberDesc)) -> bool {
    e.name@ == t.0 && e.description == t.1
}

/// Whether a decoded data segment carries exactly the parsed target, offset
/// expression and payload.
pub open spec fn segment_reflects(d: DataSegment, t: (u32, Seq<Instruction>, Seq<u8>)) -> bool {
    d.index == t.0 && d.expr@ == t.1 && d.init@ == t.2
}

/// One parsed function body: a count of local declarations, the local
/// types, a count of instructions, the instructions.
pub open spec fn spec_parse_body(bytes: Seq<u8>, pos: int) -> Result<
    ((Seq<ValType>, Seq<Instruction>), int),
    Error,
> {
    match spec_parse_uleb(bytes, pos, 0) {
        Err(e) => Err(e),
        Ok((nl, p1)) => match spec_parse_valtypes(bytes, p1, nl) {
            Err(e) => Err(e),
            Ok((ls, p2)) => match spec_parse_uleb(bytes, p2, 0) {
                Err(e) => Err(e),
                Ok((ni, p3)) => match spec_parse_instrs(bytes, p3, ni) {
                    Err(e) => Err(e),
                    Ok((is, p4)) => Ok(((ls, is), p4)),
                },
            },
        },
    }
}

/// One parsed import: source module name, export name, expected member.
pub open spec fn spec_parse_import(bytes: Seq<u8>, pos: int) -> Result<
    ((Seq<char>, Seq<char>, MemberDesc), int),
    Error,
> {
    match spec_parse_string(bytes, pos) {
        Err(e) => Err(e),
        Ok((mn, p1)) => match spec_parse_string(bytes, p1) {
            Err(e) => Err(e),
            Ok((nm, p2)) => match spec_parse_desc(bytes, p2) {
                Err(e) => Err(e),
                Ok((d, p3)) => Ok(((mn, nm, d), p3)),
            },
        },
    }
}

/// One parsed export: name and member.
pub open spec fn spec_parse_export(bytes: Seq<u8>, pos: int) -> Result<
    ((Seq<char>, MemberDesc), int),
    Error,
> {
    match spec_parse_string(bytes, pos) {
        Err(e) => Err(e),
        Ok((nm, p1)) => match spec_parse_desc(bytes, p1) {
            Err(e) => Err(e),
            Ok((d, p2)) => Ok(((nm, d), p2)),
        },
    }
}

/// One parsed data segment: target memory index, offset expression, raw
/// payload.
pub open spec fn spec_parse_segment(bytes: Seq<u8>, pos: int) -> Result<
    ((u32, Seq<Instruction>, Seq<u8>), int),
    Error,
> {
    match spec_parse_uleb(bytes, pos, 0) {
        Err(e) => Err(e),
        Ok((idx, p1)) => match spec_parse_uleb(bytes, p1, 0) {
            Err(e) => Err(e),
            Ok((ni, p2)) => match spec_parse_instrs(bytes, p2, ni) {
                Err(e) => Err(e),
                Ok((is, p3)) => match spec_parse_uleb(bytes, p3, 0) {
                    Err(e) => Err(e),
                    Ok((nb, p4)) => match spec_parse_bytes(bytes, p4, nb) {
                        Err(e) => Err(e),
                        Ok((bs, p5)) => Ok(((idx as u32, is, bs), p5)),
                    },
                },
            },
        },
    }
}

/// `n` parsed function signatures.
pub open spec fn spec_parse_functypes(bytes: Seq<u8>, pos: int, n: int) -> Result<
    (Seq<(Seq<ValType>, Seq<ValType>)>, int),
    Error,
>
    decreases n,
{
    if n <= 0 {
        Ok((Seq::empty(), pos))
    } else {
        match spec_parse_functype(bytes, pos) {
            Err(e) => Err(e),
            Ok((t, p1)) => match spec_parse_functypes(bytes, p1, n - 1) {
                Err(e) => Err(e),
                Ok((ts, p2)) => Ok((seq![t] + ts, p2)),
            },
        }
    }
}

/// `n` parsed unsigned indices.
pub open spec fn spec_parse_indices(bytes: Seq<u8>, pos: int, n: int) -> Result<
    (Seq<u32>, int),
    Error,
>
    decreases n,
{
    if n <= 0 {
        Ok((Seq::empty(), pos))
    } else {
        match spec_parse_uleb(bytes, pos, 0) {
            Err(e) => Err(e),
            Ok((v, p1)) => match spec_parse_indices(bytes, p1, n - 1) {
                Err(e) => Err(e),
                Ok((vs, p2)) => Ok((seq![v as u32] + vs, p2)),
            },
        }
    }
}

/// `n` parsed function bodies.
pub open spec fn spec_parse_bodies(bytes: Seq<u8>, pos: int, n: int) -> Result<
    (Seq<(Seq<ValType>, Seq<Instruction>)>, int),
    Error,
>
    decreases n,
{
    if n <= 0 {
        Ok((Seq::empty(), pos))
    } else {
        match spec_parse_body(bytes, pos) {
            Err(e) => Err(e),
            Ok((t, p1)) => match spec_parse_bodies(bytes, p1, n - 1) {
                Err(e) => Err(e),
                Ok((ts, p2)) => Ok((seq![t] + ts, p2)),
            },
        }
    }
}

/// `n` parsed imports.
pub open spec fn spec_parse_imports(bytes: Seq<u8>, pos: int, n: int) -> Result<
    (Seq<(Seq<char>, Seq<char>, MemberDesc)>, int),
    Error,
>
    decreases n,
{
    if n <= 0 {
        Ok((Seq::empty(), pos))
    } else {
        match spec_parse_import(bytes, pos) {
            Err(e) => Err(e),
            Ok((t, p1)) => match spec_parse_imports(bytes, p1, n - 1) {
                Err(e) => Err(e),
                Ok((ts, p2)) => Ok((seq![t] + ts, p2)),
            },
        }
    }
}

/// `n` parsed exports.
pub open spec fn spec_parse_exports(bytes: Seq<u8>, pos: int, n: int) -> Result<
    (Seq<(Seq<char>, MemberDesc)>, int),
    Error,
>
    decreases n,
{
    if n <= 0 {
        Ok((Seq::empty(), pos))
    } else {
        match spec_parse_export(bytes, pos) {
            Err(e) => Err(e),
            Ok((t, p1)) => match spec_parse_exports(bytes, p1, n - 1) {
                Err(e) => Err(e),
                Ok((ts, p2)) => Ok((seq![t] + ts, p2)),
            },
        }
    }
}

/// `n` parsed data segments.
pub open spec fn spec_parse_segments(bytes: Seq<u8>, pos: int, n: int) -> Result<
    (Seq<(u32, Seq<Instruction>, Seq<u8>)>, int),
    Error,
>
    decreases n,
{
    if n <= 0 {
        Ok((Seq::empty(), pos))
    } else {
        match spec_parse_segment(bytes, pos) {
            Err(e) => Err(e),
            Ok((t, p1)) => match spec_parse_segments(bytes, p1, n - 1) {
                Err(e) => Err(e),
                Ok((ts, p2)) => Ok((seq![t] + ts, p2)),
            },
        }
    }
}

/// One parsed local debug name: the local's index and its name.
pub open spec fn spec_parse_local_name(bytes: Seq<u8>, pos: int) -> Result<
    ((u32, Seq<char>), int),
    Error,
> {
    match spec_parse_uleb(bytes, pos, 0) {
        Err(e) => Err(e),
        Ok((idx, p1)) => match spec_parse_string(bytes, p1) {
            Err(e) => Err(e),
            Ok((s, p2)) => Ok(((idx as u32, s), p2)),
        },
    }
}

/// `n` parsed local debug names.
pub open spec fn spec_parse_local_names(bytes: Seq<u8>, pos: int, n: int) -> Result<
    (Seq<(u32, Seq<char>)>, int),
    Error,
>
    decreases n,
{
    if n <= 0 {
        Ok((Seq::empty(), pos))
    } else {
        match spec_parse_local_name(bytes, pos) {
            Err(e) => Err(e),
            Ok((t, p1)) => match spec_parse_local_names(bytes, p1, n - 1) {
                Err(e) => Err(e),
                Ok((ts, p2)) => Ok((seq![t] + ts, p2)),
            },
        }
    }
}

/// The parsed image of one function's debug names.
#[verifier::ext_equal]
pub struct FuncNamesImage {
    pub func: u32,
    pub name: Option<Seq<char>>,
    pub locals: Seq<(u32, Seq<char>)>,
}

/// One parsed per-function name entry: the function's index, a flag byte
/// saying whether a name follows, the optional name, and its local names.
pub open spec fn spec_parse_func_names(bytes: Seq<u8>, pos: int) -> Result<
    (FuncNamesImage, int),
    Error,
> {
    match spec_parse_uleb(bytes, pos, 0) {
        Err(e) => Err(e),
        Ok((idx, p1)) => if p1 >= bytes.len() {
            Err(Error::UnexpectedEof)
        } else if bytes[p1] != 0 && bytes[p1] != 1 {
            Err(Error::InvalidModule)
        } else {
            let named = bytes[p1] == 1;
            let after_name = if named {
                spec_parse_string(bytes, p1 + 1)
            } else {
                Ok((Seq::empty(), p1 + 1))
            };
            match after_name {
                Err(e) => Err(e),
                Ok((s, p2)) => match spec_parse_uleb(bytes, p2, 0) {
                    Err(e) => Err(e),
                    Ok((nl, p3)) => match spec_parse_local_names(bytes, p3, nl) {
                        Err(e) => Err(e),
                        Ok((ls, p4)) => Ok(
                            (
                                FuncNamesImage {
                                    func: idx as u32,
                                    name: if named {
                                        Some(s)
                                    } else {
                                        None
                                    },
                                    locals: ls,
                                },
                                p4,
                            ),
                        ),
                    },
                },
            }
        },
    }
}

/// `n` parsed per-function name entries.
pub open spec fn spec_parse_func_names_list(bytes: Seq<u8>, pos: int, n: int) -> Result<
    (Seq<FuncNamesImage>, int),
    Error,
>
    decreases n,
{
    if n <= 0 {
        Ok((Seq::empty(), pos))
    } else {
        match spec_parse_func_names(bytes, pos) {
            Err(e) => Err(e),
            Ok((t, p1)) => match spec_parse_func_names_list(bytes, p1, n - 1) {
                Err(e) => Err(e),
                Ok((ts, p2)) => Ok((seq![t] + ts, p2)),
            },
        }
    }
}

/// The parsed image of a name section: the optional module name and the
/// per-function name entries.
#[verifier::ext_equal]
pub struct NamesImage {
    pub module_name: Option<Seq<char>>,
    pub funcs: Seq<FuncNamesImage>,
}

/// A name-section payload: a flag byte saying whether a module name
/// follows, the optional module name, a count, and that many per-function
/// entries.
pub open spec fn spec_name_payload(bytes: Seq<u8>) -> Result<NamesImage, Error> {
    if bytes.len() == 0 {
        Err(Error::UnexpectedEof)
    } else if bytes[0] != 0 && bytes[0] != 1 {
        Err(Error::InvalidModule)
    } else {
        let named = bytes[0] == 1;
        let after_name = if named {
            spec_parse_string(bytes, 1)
        } else {
            Ok((Seq::empty(), 1int))
        };
        match after_name {
            Err(e) => Err(e),
            Ok((s, p1)) => match spec_parse_uleb(bytes, p1, 0) {
                Err(e) => Err(e),
                Ok((n, p2)) => match spec_parse_func_names_list(bytes, p2, n) {
                    Err(e) => Err(e),
                    Ok((fs, _)) => Ok(
                        NamesImage {
                            module_name: if named {
                                Some(s)
                            } else {
                                None
                            },
                            funcs: fs,
                        },
                    ),
                },
            },
        }
    }
}

/// Whether an optional owned name carries exactly the parsed characters.
pub open spec fn opt_string_reflects(s: Option<String>, m: Option<Seq<char>>) -> bool {
    match s {
        None => m is None,
        Some(x) => m matches Some(y) && x@ == y,
    }
}

/// Whether one decoded per-function name entry carries exactly its parsed
/// image.
pub open spec fn func_names_reflects(f: (u32, FuncNames), m: FuncNamesImage) -> bool {
    &&& f.0 == m.func
    &&& opt_string_reflects(f.1.func_name, m.name)
    &&& f.1.locals@.len() == m.locals.len()
    &&& forall|k: int|
        0 <= k < m.locals.len() ==> (#[trigger] f.1.locals@[k]).0 == m.locals[k].0
            && f.1.locals@[k].1@ == m.locals[k].1
}

/// Whether decoded debug-name tables carry exactly their parsed image.
pub open spec fn names_reflects(n: ModuleNames, m: NamesImage) -> bool {
    &&& opt_string_reflects(n.module_name, m.module_name)
    &&& n.funcs@.len() == m.funcs.len()
    &&& forall|k: int| 0 <= k < m.funcs.len() ==> func_names_reflects(#[trigger] n.funcs@[k], m.funcs[k])
}

/// A payload that opens with its element count: the parsed signatures of a
/// type section.
pub open spec fn spec_type_payload(bytes: Seq<u8>) -> Result<
    Seq<(Seq<ValType>, Seq<ValType>)>,
    Error,
> {
    match spec_parse_uleb(bytes, 0, 0) {
        Err(e) => Err(e),
        Ok((n, p1)) => match spec_parse_functypes(bytes, p1, n) {
            Err(e) => Err(e),
            Ok((ts, _)) => Ok(ts),
        },
    }
}

/// The parsed type indices of a function section.
pub open spec fn spec_function_payload(bytes: Seq<u8>) -> Result<Seq<u32>, Error> {
    match spec_parse_uleb(bytes, 0, 0) {
        Err(e) => Err(e),
        Ok((n, p1)) => match spec_parse_indices(bytes, p1, n) {
            Err(e) => Err(e),
            Ok((ts, _)) => Ok(ts),
        },
    }
}

/// The parsed bodies of a code section.
pub open spec fn spec_code_payload(bytes: Seq<u8>) -> Result<
    Seq<(Seq<ValType>, Seq<Instruction>)>,
    Error,
> {
    match spec_parse_uleb(bytes, 0, 0) {
        Err(e) => Err(e),
        Ok((n, p1)) => match spec_parse_bodies(bytes, p1, n) {
            Err(e) => Err(e),
            Ok((ts, _)) => Ok(ts),
        },
    }
}

/// The parsed imports of an import section.
pub open spec fn spec_import_payload(bytes: Seq<u8>) -> Result<
    Seq<(Seq<char>, Seq<char>, MemberDesc)>,
    Error,
> {
    match spec_parse_uleb(bytes, 0, 0) {
        Err(e) => Err(e),
        Ok((n, p1)) => match spec_parse_imports(bytes, p1, n) {
            Err(e) => Err(e),
            Ok((ts, _)) => Ok(ts),
        },
    }
}

/// The parsed exports of an export section.
pub open spec fn spec_export_payload(bytes: Seq<u8>) -> Result<
    Seq<(Seq<char>, MemberDesc)>,
    Error,
> {
    match spec_parse_uleb(bytes, 0, 0) {
        Err(e) => Err(e),
        Ok((n, p1)) => match spec_parse_exports(bytes, p1, n) {
            Err(e) => Err(e),
            Ok((ts, _)) => Ok(ts),
        },
    }
}

/// The parsed segments of a data section.
pub open spec fn spec_data_payload(bytes: Seq<u8>) -> Result<
    Seq<(u32, Seq<Instruction>, Seq<u8>)>,
    Error,
> {
    match spec_parse_uleb(bytes, 0, 0) {
        Err(e) => Err(e),
        Ok((n, p1)) => match spec_parse_segments(bytes, p1, n) {
            Err(e) => Err(e),
            Ok((ts, _)) => Ok(ts),
        },
    }
}

/// A decoded type section: the ordered function signatures.
pub struct TypeSection {
    pub types: Vec<FuncType>,
}

/// A decoded function section: one type index per later code entry.
pub struct FunctionSection {
    pub funcs: Vec<u32>,
}

/// A decoded code section: the function bodies.
pub struct CodeSection {
    pub bodies: Vec<FuncBody>,
}

/// A decoded import section.
pub struct ImportSection {
    pub imports: Vec<Import>,
}

/// A decoded export section.
pub struct ExportSection {
    pub exports: Vec<Export>,
}

/// A decoded data section.
pub struct DataSection {
    pub data: Vec<DataSegment>,
}

/// A decoded name section: the optional debug-name tables.
pub struct NameSection {
    pub names: ModuleNames,
}

/// An opaque custom section; its payload is ignored.
pub struct CustomSection {}

impl Reader {
    /// Reads `n` function signatures.
    fn read_functypes(&mut self, n: u32) -> (r: Result<Vec<FuncType>, Error>)
        requires
            old(self).wf(),
        ensures
            final(self).wf(),
            final(self).data@ == old(self).data@,
            match spec_parse_functypes(old(self).data@, old(self).pos as int, n as int) {
                Ok((ts, end)) => r matches Ok(v) && v@.len() == ts.len() && (forall|k: int|
                    0 <= k < ts.len() ==> functype_reflects(#[trigger] v@[k], ts[k])) && final(self).pos == end,
                Err(e) => r matches Err(e2) && e2 == e,
            },
        decreases n,
    {
        if n == 0 {
            return Ok(Vec::new());
        }
        let t = match self.read_functype() {
            Ok(t) => t,
            Err(e) => {
                return Err(e);
            },
        };
        match self.read_functypes(n - 1) {
            Ok(mut rest) => {
                rest.insert(0, t);
                Ok(rest)
            },
            Err(e) => Err(e),
        }
    }

    /// Reads `n` unsigned indices.
    fn read_indices(&mut self, n: u32) -> (r: Result<Vec<u32>, Error>)
        requires
            old(self).wf(),
        ensures
            final(self).wf(),
            final(self).data@ == old(self).data@,
            match spec_parse_indices(old(self).data@, old(self).pos as int, n as int) {
                Ok((ts, end)) => r matches Ok(v) && v@ == ts && final(self).pos == end,
                Err(e) => r matches Err(e2) && e2 == e,
            },
        decreases n,
    {
        if n == 0 {
            return Ok(Vec::new());
        }
        let t = match self.read_uleb32() {
            Ok(t) => t,
            Err(e) => {
                return Err(e);
            },
        };
        match self.read_indices(n - 1) {
            Ok(mut rest) => {
                let ghost rest0 = rest@;
                rest.insert(0, t);
                proof {
                    assert(rest@ =~= seq![t] + rest0);
                }
                Ok(rest)
            },
            Err(e) => Err(e),
        }
    }

    /// Reads one function body.
    fn read_body(&mut self) -> (r: Result<FuncBody, Error>)
        requires
            old(self).wf(),
        ensures
            final(self).wf(),
            final(self).data@ == old(self).data@,
            match spec_parse_body(old(self).data@, old(self).pos as int) {
                Ok((t, end)) => r matches Ok(b) && body_reflects(b, t) && final(self).pos == end,
                Err(e) => r matches Err(e2) && e2 == e,
            },
    {
        let nl = match self.read_uleb32() {
            Ok(v) => v,
            Err(e) => {
                return Err(e);
            },
        };
        let locals = match self.read_valtypes(nl) {
            Ok(v) => v,
            Err(e) => {
                return Err(e);
            },
        };
        let ni = match self.read_uleb32() {
            Ok(v) => v,
            Err(e) => {
                return Err(e);
            },
        };
        let body = match self.read_instrs(ni) {
            Ok(v) => v,
            Err(e) => {
                return Err(e);
            },
        };
        Ok(FuncBody { locals, body })
    }

    /// Reads `n` function bodies.
    fn read_bodies(&mut self, n: u32) -> (r: Result<Vec<FuncBody>, Error>)
        requires
            old(self).wf(),
        ensures
            final(self).wf(),
            final(self).data@ == old(self).data@,
            match spec_parse_bodies(old(self).data@, old(self).pos as int, n as int) {
                Ok((ts, end)) => r matches Ok(v) && v@.len() == ts.len() && (forall|k: int|
                    0 <= k < ts.len() ==> body_reflects(#[trigger] v@[k], ts[k])) && final(self).pos == end,
                Err(e) => r matches Err(e2) && e2 == e,
            },
        decreases n,
    {
        if n == 0 {
            return Ok(Vec::new());
        }
        let t = match self.read_body() {
            Ok(t) => t,
            Err(e) => {
                return Err(e);
            },
        };
        match self.read_bodies(n - 1) {
            Ok(mut rest) => {
                rest.insert(0, t);
                Ok(rest)
            },
            Err(e) => Err(e),
        }
    }

    /// Reads one import.
    fn read_import(&mut self) -> (r: Result<Import, Error>)
        requires
            old(self).wf(),
        ensures
            final(self).wf(),
            final(self).data@ == old(self).data@,
            match spec_parse_import(old(self).data@, old(self).pos as int) {
                Ok((t, end)) => r matches Ok(i) && import_reflects(i, t) && final(self).pos == end,
                Err(e) => r matches Err(e2) && e2 == e,
            },
    {
        let module = match self.read_string() {
            Ok(s) => s,
            Err(e) => {
                return Err(e);
            },
        };
        let name = match self.read_string() {
            Ok(s) => s,
            Err(e) => {
                return Err(e);
            },
        };
        let description = match self.read_desc() {
            Ok(d) => d,
            Err(e) => {
                return Err(e);
            },
        };
        Ok(Import { module, name, description })
    }

    /// Reads `n` imports.
    fn read_imports(&mut self, n: u32) -> (r: Result<Vec<Import>, Error>)
        requires
            old(self).wf(),
        ensures
            final(self).wf(),
            final(self).data@ == old(self).data@,
            match spec_parse_imports(old(self).data@, old(self).pos as int, n as int) {
                Ok((ts, end)) => r matches Ok(v) && v@.len() == ts.len() && (forall|k: int|
                    0 <= k < ts.len() ==> import_reflects(#[trigger] v@[k], ts[k])) && final(self).pos == end,
                Err(e) => r matches Err(e2) && e2 == e,
            },
        decreases n,
    {
        if n == 0 {
            return Ok(Vec::new());
        }
        let t = match self.read_import() {
            Ok(t) => t,
            Err(e) => {
                return Err(e);
            },
        };
        match self.read_imports(n - 1) {
            Ok(mut rest) => {
                rest.insert(0, t);
                Ok(rest)
            },
            Err(e) => Err(e),
        }
    }

    /// Reads one export.
    fn read_export(&mut self) -> (r: Result<Export, Error>)
        requires
            old(self).wf(),
        ensures
            final(self).wf(),
            final(self).data@ == old(self).data@,
            match spec_parse_export(old(self).data@, old(self).pos as int) {
                Ok((t, end)) => r matches Ok(x) && export_reflects(x, t) && final(self).pos == end,
                Err(e) => r matches Err(e2) && e2 == e,
            },
    {
        let name = match self.read_string() {
            Ok(s) => s,
            Err(e) => {
                return Err(e);
            },
        };
        let description = match self.read_desc() {
            Ok(d) => d,
            Err(e) => {
                return Err(e);
            },
        };
        Ok(Export { name, description })
    }

    /// Reads `n` exports.
    fn read_exports(&mut self, n: u32) -> (r: Result<Vec<Export>, Error>)
        requires
            old(self).wf(),
        ensures
            final(self).wf(),
            final(self).data@ == old(self).data@,
            match spec_parse_exports(old(self).data@, old(self).pos as int, n as int) {
                Ok((ts, end)) => r matches Ok(v) && v@.len() == ts.len() && (forall|k: int|
                    0 <= k < ts.len() ==> export_reflects(#[trigger] v@[k], ts[k])) && final(self).pos == end,
                Err(e) => r matches Err(e2) && e2 == e,
            },
        decreases n,
    {
        if n == 0 {
            return Ok(Vec::new());
        }
        let t = match self.read_export() {
            Ok(t) => t,
            Err(e) => {
                return Err(e);
            },
        };
        match self.read_exports(n - 1) {
            Ok(mut rest) => {
                rest.insert(0, t);
                Ok(rest)
            },
            Err(e) => Err(e),
        }
    }

    /// Reads one data segment.
    fn read_segment(&mut self) -> (r: Result<DataSegment, Error>)
        requires
            old(self).wf(),
        ensures
            final(self).wf(),
            final(self).data@ == old(self).data@,
            match spec_parse_segment(old(self).data@, old(self).pos as int) {
                Ok((t, end)) => r matches Ok(d) && segment_reflects(d, t) && final(self).pos
                    == end,
                Err(e) => r matches Err(e2) && e2 == e,
            },
    {
        let index = match self.read_uleb32() {
            Ok(v) => v,
            Err(e) => {
                return Err(e);
            },
        };
        let ni = match self.read_uleb32() {
            Ok(v) => v,
            Err(e) => {
                return Err(e);
            },
        };
        let expr = match self.read_instrs(ni) {
            Ok(v) => v,
            Err(e) => {
                return Err(e);
            },
        };
        let nb = match self.read_uleb32() {
            Ok(v) => v,
            Err(e) => {
                return Err(e);
            },
        };
        let init = match self.read_bytes(nb) {
            Ok(v) => v,
            Err(e) => {
                return Err(e);
            },
        };
        Ok(DataSegment { index, expr, init })
    }

    /// Reads `n` data segments.
    fn read_segments(&mut self, n: u32) -> (r: Result<Vec<DataSegment>, Error>)
        requires
            old(self).wf(),
        ensures
            final(self).wf(),
            final(self).data@ == old(self).data@,
            match spec_parse_segments(old(self).data@, old(self).pos as int, n as int) {
                Ok((ts, end)) => r matches Ok(v) && v@.len() == ts.len() && (forall|k: int|
                    0 <= k < ts.len() ==> segment_reflects(#[trigger] v@[k], ts[k])) && final(self).pos == end,
                Err(e) => r matches Err(e2) && e2 == e,
            },
        decreases n,
    {
        if n == 0 {
            return Ok(Vec::new());
        }
        let t = match self.read_segment() {
            Ok(t) => t,
            Err(e) => {
                return Err(e);
            },
        };
        match self.read_segments(n - 1) {
            Ok(mut rest) => {
                rest.insert(0, t);
                Ok(rest)
            },
            Err(e) => Err(e),
        }
    }

    /// Reads one local debug name.
    fn read_local_name(&mut self) -> (r: Result<(u32, String), Error>)
        requires
            old(self).wf(),
        ensures
            final(self).wf(),
            final(self).data@ == old(self).data@,
            match spec_parse_local_name(old(self).data@, old(self).pos as int) {
                Ok((t, end)) => r matches Ok(l) && l.0 == t.0 && l.1@ == t.1 && final(self).pos
                    == end,
                Err(e) => r matches Err(e2) && e2 == e,
            },
    {
        let idx = match self.read_uleb32() {
            Ok(v) => v,
            Err(e) => {
                return Err(e);
            },
        };
        match self.read_string() {
            Ok(s) => Ok((idx, s)),
            Err(e) => Err(e),
        }
    }

    /// Reads `n` local debug names.
    fn read_local_names(&mut self, n: u32) -> (r: Result<Vec<(u32, String)>, Error>)
        requires
            old(self).wf(),
        ensures
            final(self).wf(),
            final(self).data@ == old(self).data@,
            match spec_parse_local_names(old(self).data@, old(self).pos as int, n as int) {
                Ok((ts, end)) => r matches Ok(v) && v@.len() == ts.len() && (forall|k: int|
                    0 <= k < ts.len() ==> (#[trigger] v@[k]).0 == ts[k].0 && v@[k].1@
                        == ts[k].1) && final(self).pos == end,
                Err(e) => r matches Err(e2) && e2 == e,
            },
        decreases n,
    {
        if n == 0 {
            return Ok(Vec::new());
        }
        let t = match self.read_local_name() {
            Ok(t) => t,
            Err(e) => {
                return Err(e);
            },
        };
        match self.read_local_names(n - 1) {
            Ok(mut rest) => {
                rest.insert(0, t);
                Ok(rest)
            },
            Err(e) => Err(e),
        }
    }

    /// Reads one per-function name entry.
    fn read_func_names(&mut self) -> (r: Result<(u32, FuncNames), Error>)
        requires
            old(self).wf(),
        ensures
            final(self).wf(),
            final(self).data@ == old(self).data@,
            match spec_parse_func_names(old(self).data@, old(self).pos as int) {
                Ok((t, end)) => r matches Ok(f) && func_names_reflects(f, t) && final(self).pos
                    == end,
                Err(e) => r matches Err(e2) && e2 == e,
            },
    {
        let idx = match self.read_uleb32() {
            Ok(v) => v,
            Err(e) => {
                return Err(e);
            },
        };
        let flag = match self.read_u8() {
            Ok(b) => b,
            Err(e) => {
                return Err(e);
            },
        };
        if flag != 0 && flag != 1 {
            return Err(Error::InvalidModule);
        }
        let func_name: Option<String> = if flag == 1 {
            match self.read_string() {
                Ok(s) => Some(s),
                Err(e) => {
                    return Err(e);
                },
            }
        } else {
            None
        };
        let nl = match self.read_uleb32() {
            Ok(v) => v,
            Err(e) => {
                return Err(e);
            },
        };
        match self.read_local_names(nl) {
            Ok(locals) => Ok((idx, FuncNames { func_name, locals })),
            Err(e) => Err(e),
        }
    }

    /// Reads `n` per-function name entries.
    fn read_func_names_list(&mut self, n: u32) -> (r: Result<Vec<(u32, FuncNames)>, Error>)
        requires
            old(self).wf(),
        ensures
            final(self).wf(),
            final(self).data@ == old(self).data@,
            match spec_parse_func_names_list(old(self).data@, old(self).pos as int, n as int) {
                Ok((ts, end)) => r matches Ok(v) && v@.len() == ts.len() && (forall|k: int|
                    0 <= k < ts.len() ==> func_names_reflects(#[trigger] v@[k], ts[k])) && final(self).pos == end,
                Err(e) => r matches Err(e2) && e2 == e,
            },
        decreases n,
    {
        if n == 0 {
            return Ok(Vec::new());
        }
        let t = match self.read_func_names() {
            Ok(t) => t,
            Err(e) => {
                return Err(e);
            },
        };
        match self.read_func_names_list(n - 1) {
            Ok(mut rest) => {
                rest.insert(0, t);
                Ok(rest)
            },
            Err(e) => Err(e),
        }
    }
}

impl TypeSection {
    /// Parses a type section payload: a count, then that many signatures.
    pub fn parse(reader: &mut Reader) -> (r: Result<TypeSection, Error>)
        requires
            old(reader).wf(),
        ensures
            final(reader).wf(),
            final(reader).data@ == old(reader).data@,
            old(reader).pos == 0 ==> match spec_type_payload(old(reader).data@) {
                Ok(ts) => r matches Ok(s) && s.types@.len() == ts.len()
                    && (forall|k: int|
                    0 <= k < ts.len() ==> functype_reflects(#[trigger] s.types@[k], ts[k])),
                Err(e) => r matches Err(e2) && e2 == e,
            },
    {
        let n = match reader.read_uleb32() {
            Ok(v) => v,
            Err(e) => {
                return Err(e);
            },
        };
        match reader.read_functypes(n) {
            Ok(types) => Ok(TypeSection { types }),
            Err(e) => Err(e),
        }
    }
}

impl Section for TypeSection {
    fn read(reader: &mut Reader) -> Result<TypeSection, Error> {
        TypeSection::parse(reader)
    }
}

impl FunctionSection {
    /// Parses a function section payload: a count, then that many type
    /// indices.
    pub fn parse(reader: &mut Reader) -> (r: Result<FunctionSection, Error>)
        requires
            old(reader).wf(),
        ensures
            final(reader).wf(),
            final(reader).data@ == old(reader).data@,
            old(reader).pos == 0 ==> match spec_function_payload(old(reader).data@) {
                Ok(ts) => r matches Ok(s) && s.funcs@ == ts,
                Err(e) => r matches Err(e2) && e2 == e,
            },
    {
        let n = match reader.read_uleb32() {
            Ok(v) => v,
            Err(e) => {
                return Err(e);
            },
        };
        match reader.read_indices(n) {
            Ok(funcs) => Ok(FunctionSection { funcs }),
            Err(e) => Err(e),
        }
    }
}

impl Section for FunctionSection {
    fn read(reader: &mut Reader) -> Result<FunctionSection, Error> {
        FunctionSection::parse(reader)
    }
}

impl CodeSection {
    /// Parses a code section payload: a count, then that many bodies.
    pub fn parse(reader: &mut Reader) -> (r: Result<CodeSection, Error>)
        requires
            old(reader).wf(),
        ensures
            final(reader).wf(),
            final(reader).data@ == old(reader).data@,
            old(reader).pos == 0 ==> match spec_code_payload(old(reader).data@) {
                Ok(ts) => r matches Ok(s) && s.bodies@.len() == ts.len()
                    && (forall|k: int|
                    0 <= k < ts.len() ==> body_reflects(#[trigger] s.bodies@[k], ts[k])),
                Err(e) => r matches Err(e2) && e2 == e,
            },
    {
        let n = match reader.read_uleb32() {
            Ok(v) => v,
            Err(e) => {
                return Err(e);
            },
        };
        match reader.read_bodies(n) {
            Ok(bodies) => Ok(CodeSection { bodies }),
            Err(e) => Err(e),
        }
    }
}

impl Section for CodeSection {
    fn read(reader: &mut Reader) -> Result<CodeSection, Error> {
        CodeSection::parse(reader)
    }
}

impl ImportSection {
    /// Parses an import section payload: a count, then that many imports.
    pub fn parse(reader: &mut Reader) -> (r: Result<ImportSection, Error>)
        requires
            old(reader).wf(),
        ensures
            final(reader).wf(),
            final(reader).data@ == old(reader).data@,
            old(reader).pos == 0 ==> match spec_import_payload(old(reader).data@) {
                Ok(ts) => r matches Ok(s) && s.imports@.len() == ts.len()
                    && (forall|k: int|
                    0 <= k < ts.len() ==> import_reflects(#[trigger] s.imports@[k], ts[k])),
                Err(e) => r matches Err(e2) && e2 == e,
            },
    {
        let n = match reader.read_uleb32() {
            Ok(v) => v,
            Err(e) => {
                return Err(e);
            },
        };
        match reader.read_imports(n) {
            Ok(imports) => Ok(ImportSection { imports }),
            Err(e) => Err(e),
        }
    }
}

impl Section for ImportSection {
    fn read(reader: &mut Reader) -> Result<ImportSection, Error> {
        ImportSection::parse(reader)
    }
}

impl ExportSection {
    /// Parses an export section payload: a count, then that many exports.
    pub fn parse(reader: &mut Reader) -> (r: Result<ExportSection, Error>)
        requires
            old(reader).wf(),
        ensures
            final(reader).wf(),
            final(reader).data@ == old(reader).data@,
            old(reader).pos == 0 ==> match spec_export_payload(old(reader).data@) {
                Ok(ts) => r matches Ok(s) && s.exports@.len() == ts.len()
                    && (forall|k: int|
                    0 <= k < ts.len() ==> export_reflects(#[trigger] s.exports@[k], ts[k])),
                Err(e) => r matches Err(e2) && e2 == e,
            },
    {
        let n = match reader.read_uleb32() {
            Ok(v) => v,
            Err(e) => {
                return Err(e);
            },
        };
        match reader.read_exports(n) {
            Ok(exports) => Ok(ExportSection { exports }),
            Err(e) => Err(e),
        }
    }
}

impl Section for ExportSection {
    fn read(reader: &mut Reader) -> Result<ExportSection, Error> {
        ExportSection::parse(reader)
    }
}

impl DataSection {
    /// Parses a data section payload: a count, then that many segments.
    pub fn parse(reader: &mut Reader) -> (r: Result<DataSection, Error>)
        requires
            old(reader).wf(),
        ensures
            final(reader).wf(),
            final(reader).data@ == old(reader).data@,
            old(reader).pos == 0 ==> match spec_data_payload(old(reader).data@) {
                Ok(ts) => r matches Ok(s) && s.data@.len() == ts.len()
                    && (forall|k: int|
                    0 <= k < ts.len() ==> segment_reflects(#[trigger] s.data@[k], ts[k])),
                Err(e) => r matches Err(e2) && e2 == e,
            },
    {
        let n = match reader.read_uleb32() {
            Ok(v) => v,
            Err(e) => {
                return Err(e);
            },
        };
        match reader.read_segments(n) {
            Ok(data) => Ok(DataSection { data }),
            Err(e) => Err(e),
        }
    }
}

impl Section for DataSection {
    fn read(reader: &mut Reader) -> Result<DataSection, Error> {
        DataSection::parse(reader)
    }
}

impl NameSection {
    /// Parses a name-section payload: the optional module name, then the
    /// per-function name entries.
    pub fn parse(reader: &mut Reader) -> (r: Result<NameSection, Error>)
        requires
            old(reader).wf(),
        ensures
            final(reader).wf(),
            final(reader).data@ == old(reader).data@,
            old(reader).pos == 0 ==> match spec_name_payload(old(reader).data@) {
                Ok(nm) => r matches Ok(s) && names_reflects(s.names, nm),
                Err(e) => r matches Err(e2) && e2 == e,
            },
    {
        let flag = match reader.read_u8() {
            Ok(b) => b,
            Err(e) => {
                return Err(e);
            },
        };
        if flag != 0 && flag != 1 {
            return Err(Error::InvalidModule);
        }
        let module_name: Option<String> = if flag == 1 {
            match reader.read_string() {
                Ok(s) => Some(s),
                Err(e) => {
                    return Err(e);
                },
            }
        } else {
            None
        };
        let n = match reader.read_uleb32() {
            Ok(v) => v,
            Err(e) => {
                return Err(e);
            },
        };
        match reader.read_func_names_list(n) {
            Ok(funcs) => Ok(NameSection { names: ModuleNames { module_name, funcs } }),
            Err(e) => Err(e),
        }
    }
}

impl Section for NameSection {
    fn read(reader: &mut Reader) -> Result<NameSection, Error> {
        NameSection::parse(reader)
    }
}

impl Section for CustomSection {
    fn read(_reader: &mut Reader) -> Result<CustomSection, Error> {
        Ok(CustomSection {  })
    }
}

/// The parsed image of a module: every section's content, as parsed
/// values.
#[verifier::ext_equal]
pub struct ModuleImage {
    pub types: Seq<(Seq<ValType>, Seq<ValType>)>,
    pub funcs: Seq<u32>,
    pub code: Seq<(Seq<ValType>, Seq<Instruction>)>,
    pub imports: Seq<(Seq<char>, Seq<char>, MemberDesc)>,
    pub exports: Seq<(Seq<char>, MemberDesc)>,
    pub data: Seq<(u32, Seq<Instruction>, Seq<u8>)>,
    pub names: Option<NamesImage>,
}

/// The image of a module with no sections at all.
pub open spec fn spec_empty_image() -> ModuleImage {
    ModuleImage {
        types: Seq::empty(),
        funcs: Seq::empty(),
        code: Seq::empty(),
        imports: Seq::empty(),
        exports: Seq::empty(),
        data: Seq::empty(),
        names: None,
    }
}

/// Whether a decoded module carries exactly the image `im`.
pub open spec fn module_reflects(m: Module, im: ModuleImage) -> bool {
    &&& m.types@.len() == im.types.len()
    &&& forall|k: int| 0 <= k < im.types.len() ==> functype_reflects(#[trigger] m.types@[k], im.types[k])
    &&& m.funcs@ == im.funcs
    &&& m.code@.len() == im.code.len()
    &&& forall|k: int| 0 <= k < im.code.len() ==> body_reflects(#[trigger] m.code@[k], im.code[k])
    &&& m.imports@.len() == im.imports.len()
    &&& forall|k: int|
        0 <= k < im.imports.len() ==> import_reflects(#[trigger] m.imports@[k], im.imports[k])
    &&& m.exports@.len() == im.exports.len()
    &&& forall|k: int|
        0 <= k < im.exports.len() ==> export_reflects(#[trigger] m.exports@[k], im.exports[k])
    &&& m.data@.len() == im.data.len()
    &&& forall|k: int| 0 <= k < im.data.len() ==> segment_reflects(#[trigger] m.data@[k], im.data[k])
    &&& match m.names {
        None => im.names is None,
        Some(n) => im.names matches Some(nm) && names_reflects(n, nm),
    }
}

/// The image after one section's payload: a known section replaces its
/// table, a custom section changes nothing.
#[verifier::opaque]
pub open spec fn spec_apply_section(im: ModuleImage, id: SectionId, payload: Seq<u8>) -> Result<
    ModuleImage,
    Error,
> {
    match id {
        SectionId::Custom => Ok(im),
        SectionId::Type => match spec_type_payload(payload) {
            Ok(ts) => Ok(ModuleImage { types: ts, ..im }),
            Err(e) => Err(e),
        },
        SectionId::Function => match spec_function_payload(payload) {
            Ok(ts) => Ok(ModuleImage { funcs: ts, ..im }),
            Err(e) => Err(e),
        },
        SectionId::Code => match spec_code_payload(payload) {
            Ok(ts) => Ok(ModuleImage { code: ts, ..im }),
            Err(e) => Err(e),
        },
        SectionId::Import => match spec_import_payload(payload) {
            Ok(ts) => Ok(ModuleImage { imports: ts, ..im }),
            Err(e) => Err(e),
        },
        SectionId::Export => match spec_export_payload(payload) {
            Ok(ts) => Ok(ModuleImage { exports: ts, ..im }),
            Err(e) => Err(e),
        },
        SectionId::Data => match spec_data_payload(payload) {
            Ok(ts) => Ok(ModuleImage { data: ts, ..im }),
            Err(e) => Err(e),
        },
        SectionId::Name => match spec_name_payload(payload) {
            Ok(nm) => Ok(ModuleImage { names: Some(nm), ..im }),
            Err(e) => Err(e),
        },
    }
}

/// The image after reading every remaining section: one id byte, an
/// unsigned length, exactly that many payload bytes, until the stream ends
/// cleanly between sections.
pub open spec fn spec_load_sections(bytes: Seq<u8>, pos: int, im: ModuleImage) -> Result<
    ModuleImage,
    Error,
>
    decreases bytes.len() - pos,
{
    if pos < 0 {
        Err(Error::InvalidModule)
    } else if pos >= bytes.len() {
        Ok(im)
    } else {
        let id = spec_section_id(bytes[pos]);
        match spec_parse_uleb(bytes, pos + 1, 0) {
            Err(e) => Err(e),
            Ok((size, p1)) => if p1 + size > bytes.len() {
                Err(Error::UnexpectedEof)
            } else if p1 + size <= pos {
                Err(Error::InvalidModule)
            } else {
                match spec_apply_section(im, id, bytes.subrange(p1, p1 + size)) {
                    Err(e) => Err(e),
                    Ok(im2) => spec_load_sections(bytes, p1 + size, im2),
                }
            },
        }
    }
}

/// The image a whole stream decodes to: the fixed header, then the
/// sections.
pub open spec fn spec_load(bytes: Seq<u8>, pos: int) -> Result<ModuleImage, Error> {
    if pos < 0 {
        Err(Error::InvalidModule)
    } else if bytes.len() - pos < 4 {
        Err(Error::UnexpectedEof)
    } else if spec_le_u32(bytes[pos], bytes[pos + 1], bytes[pos + 2], bytes[pos + 3])
        != EXPECTED_MAGIC {
        Err(Error::InvalidModule)
    } else if bytes.len() - pos < 8 {
        Err(Error::UnexpectedEof)
    } else {
        spec_load_sections(bytes, pos + 8, spec_empty_image())
    }
}

/// Reads one section and folds it into `module`: the step the loader
/// repeats until the stream ends cleanly. Returns whether the stream is
/// done.
#[verifier::rlimit(100)]
fn load_step(reader: &mut Reader, module: &mut Module) -> (r: Result<bool, Error>)
    requires
        old(reader).wf(),
    ensures
        final(reader).wf(),
        final(reader).data@ == old(reader).data@,
        final(module).name == old(module).name,
        match r {
            Ok(done) => if done {
                final(reader).pos == old(reader).pos && *final(module) == *old(module) && old(
                    reader,
                ).pos == old(reader).data@.len()
            } else {
                final(reader).pos > old(reader).pos && spec_load_sections(
                    old(reader).data@,
                    old(reader).pos as int,
                    spec_image_of(*old(module)),
                ) == spec_load_sections(
                    final(reader).data@,
                    final(reader).pos as int,
                    spec_image_of(*final(module)),
                )
            },
            Err(e) => spec_load_sections(
                old(reader).data@,
                old(reader).pos as int,
                spec_image_of(*old(module)),
            ) == Err::<ModuleImage, Error>(e),
        },
{
    proof {
        reveal(spec_apply_section);
    }
    let ghost bytes = reader.data@;
    let ghost pos0 = reader.pos as int;
    let ghost im0 = spec_image_of(*module);
    let header = match reader.read_section_header() {
        Ok(Some(h)) => h,
        Ok(None) => {
            return Ok(true);
        },
        Err(e) => {
            return Err(e);
        },
    };
    proof {
        lemma_uleb_bound(bytes, pos0 + 1, 0);
    }
    let mut sub = match reader.take(header.size) {
        Ok(s) => s,
        Err(e) => {
            return Err(e);
        },
    };
    let ghost payload = sub.data@;
    match header.id {
        SectionId::Custom => {},
        SectionId::Type => {
            match TypeSection::parse(&mut sub) {
                Ok(s) => {
                    module.types = s.types;
                },
                Err(e) => {
                    return Err(e);
                },
            }
        },
        SectionId::Function => {
            match FunctionSection::parse(&mut sub) {
                Ok(s) => {
                    module.funcs = s.funcs;
                },
                Err(e) => {
                    return Err(e);
                },
            }
        },
        SectionId::Code => {
            match CodeSection::parse(&mut sub) {
                Ok(s) => {
                    module.code = s.bodies;
                },
                Err(e) => {
                    return Err(e);
                },
            }
        },
        SectionId::Import => {
            match ImportSection::parse(&mut sub) {
                Ok(s) => {
                    module.imports = s.imports;
                },
                Err(e) => {
                    return Err(e);
                },
            }
        },
        SectionId::Export => {
            match ExportSection::parse(&mut sub) {
                Ok(s) => {
                    module.exports = s.exports;
                },
                Err(e) => {
                    return Err(e);
                },
            }
        },
        SectionId::Data => {
            match DataSection::parse(&mut sub) {
                Ok(s) => {
                    module.data = s.data;
                },
                Err(e) => {
                    return Err(e);
                },
            }
        },
        SectionId::Name => {
            match NameSection::parse(&mut sub) {
                Ok(s) => {
                    module.names = Some(s.names);
                },
                Err(e) => {
                    return Err(e);
                },
            }
        },
    }
    proof {
        match spec_apply_section(im0, header.id, payload) {
            Ok(im2) => {
                assert(spec_image_of(*module) =~~= im2);
            },
            Err(_) => {
                assert(false);
            },
        }
    }
    Ok(false)
}

impl Module {
    /// Decodes a whole byte stream into a module: the fixed header, then
    /// the sections, each replacing its table; custom sections are skipped.
    /// The module's name is left empty for the caller to fill in; debug
    /// names come from the name section when the stream has one.
    #[verifier::rlimit(100)]
    #[verifier::loop_isolation(false)]
    pub fn load(reader: Reader) -> (r: Result<Module, Error>)
        requires
            reader.wf(),
        ensures
            match spec_load(reader.data@, reader.pos as int) {
                Ok(im) => r matches Ok(m) && module_reflects(m, im) && m.name@ == Seq::<
                    char,
                >::empty(),
                Err(e) => r matches Err(e2) && e2 == e,
            },
    {
        let mut reader = reader;
        let ghost bytes = reader.data@;
        let ghost start = reader.pos as int;
        match reader.read_module_header() {
            Ok(_) => {},
            Err(e) => {
                proof {
                    assert(spec_load(bytes, start) == Err::<ModuleImage, Error>(e));
                }
                return Err(e);
            },
        }
        let mut module = Module::empty();
        proof {
            assert(spec_image_of(module) =~~= spec_empty_image());
        }
        loop
            invariant
                reader.wf(),
                reader.data@ == bytes,
                module.name@ == Seq::<char>::empty(),
                spec_load(bytes, start) == spec_load_sections(
                    bytes,
                    reader.pos as int,
                    spec_image_of(module),
                ),
            decreases bytes.len() - reader.pos,
        {
            match load_step(&mut reader, &mut module) {
                Ok(true) => {
                    proof {
                        assert(spec_load_sections(bytes, reader.pos as int, spec_image_of(module))
                            == Ok::<ModuleImage, Error>(spec_image_of(module)));
                        assert(module_reflects(module, spec_image_of(module)));
                    }
                    return Ok(module);
                },
                Ok(false) => {},
                Err(e) => {
                    proof {
                        assert(spec_load(bytes, start) == Err::<ModuleImage, Error>(e));
                    }
                    return Err(e);
                },
            }
        }
    }
}

/// The image a decoded module itself presents.
pub open spec fn spec_image_of(m: Module) -> ModuleImage {
    ModuleImage {
        types: m.types@.map(|k: int, t: FuncType| (t.params@, t.results@)),
        funcs: m.funcs@,
        code: m.code@.map(|k: int, b: FuncBody| (b.locals@, b.body@)),
        imports: m.imports@.map(|k: int, i: Import| (i.module@, i.name@, i.description)),
        exports: m.exports@.map(|k: int, e: Export| (e.name@, e.description)),
        data: m.data@.map(|k: int, d: DataSegment| (d.index, d.expr@, d.init@)),
        names: match m.names {
            None => None,
            Some(n) => Some(spec_names_image(n)),
        },
    }
}

/// The image decoded debug-name tables themselves present.
pub open spec fn spec_names_image(n: ModuleNames) -> NamesImage {
    NamesImage {
        module_name: match n.module_name {
            None => None,
            Some(s) => Some(s@),
        },
        funcs: n.funcs@.map(
            |k: int, f: (u32, FuncNames)|
                FuncNamesImage {
                    func: f.0,
                    name: match f.1.func_name {
                        None => None,
                        Some(s) => Some(s@),
                    },
                    locals: f.1.locals@.map(|j: int, l: (u32, String)| (l.0, l.1@)),
                },
        ),
    }
}

} // verus!

