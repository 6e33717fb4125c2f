//! The textual (s-expression) front end. It produces the same module
//! representation the binary loader produces, from source text; it is a
//! pure producer with no execution semantics of its own, and it is
//! deliberately small: only an empty module form and the two instruction
//! atoms the interpreter core knows are understood.

use std::collections::VecDeque;

use vstd::prelude::*;

use crate::builder::ModuleBuilder;
use crate::module::Instruction;
use crate::value::Value;

verus! {

/// Why a piece of source text was rejected.
#[derive(Clone, PartialEq, Eq, Debug)]
pub enum ParserErrorKind {
    /// A token appeared where the grammar expected something else.
    UnexpectedToken,
    /// A keyword or instruction this front end does not understand.
    UnexpectedAtom(String),
    /// The text ended in the middle of a form.
    UnexpectedEnd,
    /// A byte outside the small accepted alphabet.
    UnexpectedCharacter,
    /// A numeric literal that does not fit.
    NumberOutOfRange,
}

/// A rejection, with the byte range of the offending text.
#[derive(Clone, PartialEq, Eq, Debug)]
pub struct ParserError {
    pub kind: ParserErrorKind,
    pub start: usize,
    pub end: usize,
}

/// An atomic s-expression value: a bare word, an integer literal, or a
/// parenthesized list.
pub enum SVal {
    Atom(String),
    Integer(i64),
    Expr(Vec<SExpr>),
}

/// One s-expression, with the byte range it was read from.
pub struct SExpr(pub SVal, pub usize, pub usize);

/// One parsed script command: so far, only a module form.
#[derive(Clone, PartialEq, Eq, Debug)]
pub enum ScriptCommand {
    Module(crate::module::Module),
}

fn is_atom_byte(b: u8) -> (r: bool)
    ensures
        r == (33 <= b <= 126 && b != 40 && b != 41),
{
    33 <= b && b <= 126 && b != 40 && b != 41
}

fn skip_ws(bytes: &Vec<u8>, pos: usize) -> (r: usize)
    requires
        pos <= bytes@.len(),
    ensures
        pos <= r <= bytes@.len(),
{
    let mut i = pos;
    loop
        invariant
            pos <= i <= bytes@.len(),
        decreases bytes@.len() - i,
    {
        if i < bytes.len() {
            let b = bytes[i];
            if b == 32 || b == 9 || b == 10 || b == 13 {
                i = i + 1;
            } else {
                break ;
            }
        } else {
            break ;
        }
    }
    i
}

/// Parses one s-expression starting at the first non-whitespace byte at or
/// after `pos`.
fn parse_expr(bytes: &Vec<u8>, pos: usize) -> (r: Result<(SExpr, usize), ParserError>)
    requires
        pos <= bytes@.len(),
    ensures
        r matches Ok((e, p)) ==> pos < p <= bytes@.len(),
    decreases bytes@.len() - pos,
{
    let start = skip_ws(bytes, pos);
    if start >= bytes.len() {
        return Err(ParserError { kind: ParserErrorKind::UnexpectedEnd, start, end: start });
    }
    let b = bytes[start];
    if b == 40 {
        // A parenthesized list.
        let mut items: Vec<SExpr> = Vec::new();
        let mut cur = start + 1;
        loop
            invariant
                start < cur <= bytes@.len(),
                pos <= start,
                bytes@.len() >= cur,
            decreases bytes@.len() - cur,
        {
            let here = skip_ws(bytes, cur);
            if here >= bytes.len() {
                return Err(
                    ParserError { kind: ParserErrorKind::UnexpectedEnd, start: here, end: here },
                );
            }
            if bytes[here] == 41 {
                return Ok((SExpr(SVal::Expr(items), start, here + 1), here + 1));
            }
            match parse_expr(bytes, here) {
                Ok((child, p2)) => {
                    items.push(child);
                    cur = p2;
                },
                Err(e) => {
                    return Err(e);
                },
            }
        }
    } else if is_atom_byte(b) {
        // A bare word or an integer literal.
        let mut end = start + 1;
        loop
            invariant
                start < end <= bytes@.len(),
            decreases bytes@.len() - end,
        {
            if end < bytes.len() {
                let c = bytes[end];
                if 33 <= c && c <= 126 && c != 40 && c != 41 {
                    end = end + 1;
                } else {
                    break ;
                }
            } else {
                break ;
            }
        }
        let mut word: Vec<u8> = Vec::new();
        let mut i = start;
        while i < end
            invariant
                start <= i <= end <= bytes@.len(),
            decreases end - i,
        {
            word.push(bytes[i]);
            i = i + 1;
        }
        match parse_integer(&word) {
            Some(v) => Ok((SExpr(SVal::Integer(v), start, end), end)),
            None => match crate::reader::string_from_utf8(word) {
                Some(s) => Ok((SExpr(SVal::Atom(s), start, end), end)),
                None => Err(
                    ParserError {
                        kind: ParserErrorKind::UnexpectedCharacter,
                        start,
                        end,
                    },
                ),
            },
        }
    } else {
        Err(ParserError { kind: ParserErrorKind::UnexpectedCharacter, start, end: start + 1 })
    }
}

/// Reads an optionally signed decimal integer, if the word is one.
fn parse_integer(word: &Vec<u8>) -> (r: Option<i64>) {
    let n = word.len();
    if n == 0 {
        return None;
    }
    let negative = word[0] == 45;
    let mut i: usize = if negative {
        1
    } else {
        0
    };
    if i >= n {
        return None;
    }
    let mut acc: i64 = 0;
    while i < n
        invariant
            i <= n,
            n == word@.len(),
            0 <= acc,
        decreases n - i,
    {
        let b = word[i];
        if !(48 <= b && b <= 57) {
            return None;
        }
        let d = (b - 48) as i64;
        if acc > (0x7FFF_FFFF_FFFF_FFFFi64 - d) / 10 {
            return None;
        }
        acc = acc * 10 + d;
        i = i + 1;
    }
    if negative {
        Some(-acc)
    } else {
        Some(acc)
    }
}

/// Parses the body of a `(module ...)` form. The front end is incomplete:
/// a module body with any inner form at all is rejected, so exactly the
/// empty module can be written.
pub fn parse_module(body: VecDeque<SExpr>) -> (r: Result<ScriptCommand, ParserError>)
    ensures
        body@.len() == 0 ==> match r {
            Ok(c) => c matches ScriptCommand::Module(m) && m.name@ == Seq::<char>::empty()
                && m.types@.len() == 0 && m.funcs@.len() == 0 && m.code@.len() == 0
                && m.imports@.len() == 0 && m.exports@.len() == 0 && m.data@.len() == 0
                && m.names is None,
            Err(_) => false,
        },
        body@.len() > 0 ==> r is Err,
{
    let mut body = body;
    let module = ModuleBuilder::new();
    match body.pop_front() {
        None => Ok(ScriptCommand::Module(module.build())),
        Some(nexpr) => {
            let SExpr(val, start, end) = nexpr;
            match val {
                SVal::Atom(a) => Err(
                    ParserError { kind: ParserErrorKind::UnexpectedAtom(a), start, end },
                ),
                SVal::Expr(items) => {
                    if items.len() > 0 {
                        let SExpr(head, hs, he) = &items[0];
                        match head {
                            SVal::Atom(a) => Err(
                                ParserError {
                                    kind: ParserErrorKind::UnexpectedAtom(a.clone()),
                                    start: *hs,
                                    end: *he,
                                },
                            ),
                            _ => Err(
                                ParserError {
                                    kind: ParserErrorKind::UnexpectedToken,
                                    start,
                                    end,
                                },
                            ),
                        }
                    } else {
                        Err(ParserError { kind: ParserErrorKind::UnexpectedToken, start, end })
                    }
                },
                SVal::Integer(_) => Err(
                    ParserError { kind: ParserErrorKind::UnexpectedToken, start, end },
                ),
            }
        },
    }
}

/// Parses a flat instruction sequence: each atom names an instruction that
/// takes its operands from the following tokens. Parenthesized (folded)
/// instruction forms are not understood yet.
pub fn parse_instructions(rest: &mut VecDeque<SExpr>, list: &mut Vec<Instruction>) -> (r: Result<
    (),
    ParserError,
>)
    ensures
        old(rest)@.len() == 0 ==> r is Ok && final(list)@ == old(list)@,
        r is Ok ==> final(rest)@.len() == 0,
        final(list)@.len() >= old(list)@.len(),
        final(list)@.take(old(list)@.len() as int) == old(list)@,
{
    loop
        invariant
            old(rest)@.len() == 0 ==> rest@.len() == 0 && list@ == old(list)@,
            list@.len() >= old(list)@.len(),
            list@.take(old(list)@.len() as int) == old(list)@,
        decreases rest@.len(),
    {
        match rest.pop_front() {
            None => {
                return Ok(());
            },
            Some(SExpr(SVal::Expr(body), start, end)) => {
                let _ = start;
                let _ = end;
                return match unfold_instructions(body, list) {
                    Ok(()) => Ok(()),
                    Err(e) => Err(e),
                };
            },
            Some(SExpr(SVal::Atom(inst), start, end)) => {
                match parse_instruction(inst, start, end, rest) {
                    Ok(i) => {
                        let ghost before = list@;
                        list.push(i);
                        proof {
                            assert(list@.take(old(list)@.len() as int) =~= before.take(
                                old(list)@.len() as int,
                            ));
                        }
                    },
                    Err(e) => {
                        return Err(e);
                    },
                }
            },
            Some(SExpr(_, start, end)) => {
                return Err(ParserError { kind: ParserErrorKind::UnexpectedToken, start, end });
            },
        }
    }
}

/// Unfolds a parenthesized instruction form. The front end is incomplete:
/// folded forms are always rejected.
fn unfold_instructions(body: Vec<SExpr>, list: &mut Vec<Instruction>) -> (r: Result<
    (),
    ParserError,
>)
    ensures
        r is Err,
        *final(list) == *old(list),
{
    let _ = body;
    Err(ParserError { kind: ParserErrorKind::UnexpectedToken, start: 0, end: 0 })
}

/// Parses one named instruction, taking its operands off the front of
/// `rest`: a constant pushes its integer operand, a call names its callee
/// by index.
fn parse_instruction(name: String, start: usize, end: usize, rest: &mut VecDeque<SExpr>) -> (r:
    Result<Instruction, ParserError>)
    ensures
        final(rest)@.len() <= old(rest)@.len(),
        name@ == "i32.const"@ ==> match r {
            Ok(inst) => old(rest)@.len() > 0 && (old(rest)@[0].0 matches SVal::Integer(v) && {
                &&& final(rest)@ == old(rest)@.drop_first()
                &&& 0 <= v <= u32::MAX ==> inst == Instruction::Const(Value::I32(v as u32))
            }),
            Err(_) => !(old(rest)@.len() > 0 && (old(rest)@[0].0 matches SVal::Integer(_))),
        },
        name@ == "call"@ ==> match r {
            Ok(inst) => old(rest)@.len() > 0 && (old(rest)@[0].0 matches SVal::Integer(v) && 0 <= v
                <= u32::MAX && inst == Instruction::Call(v as u32) && final(rest)@ == old(
                rest,
            )@.drop_first()),
            Err(_) => !(old(rest)@.len() > 0 && (old(rest)@[0].0 matches SVal::Integer(v) && 0 <= v
                <= u32::MAX)),
        },
        (name@ != "i32.const"@ && name@ != "call"@) ==> (r matches Err(e) && e.kind
            == ParserErrorKind::UnexpectedAtom(name)),
{
    proof {
        reveal_strlit("i32.const");
        reveal_strlit("call");
        assert("i32.const"@.len() == 9);
        assert("call"@.len() == 4);
        assert("i32.const"@ != "call"@);
    }
    if crate::str_eq(name.as_str(), "i32.const") {
        match pop_int(rest, start, end) {
            Ok(v) => Ok(Instruction::Const(Value::I32(v as u32))),
            Err(e) => Err(e),
        }
    } else if crate::str_eq(name.as_str(), "call") {
        match pop_int(rest, start, end) {
            Ok(v) => {
                if v < 0 || v > 0xFFFF_FFFFi64 {
                    Err(ParserError { kind: ParserErrorKind::NumberOutOfRange, start, end })
                } else {
                    Ok(Instruction::Call(v as u32))
                }
            },
            Err(e) => Err(e),
        }
    } else {
        Err(ParserError { kind: ParserErrorKind::UnexpectedAtom(name), start, end })
    }
}

/// Takes the next token, which must be an integer literal.
fn pop_int(rest: &mut VecDeque<SExpr>, start: usize, end: usize) -> (r: Result<i64, ParserError>)
    ensures
        final(rest)@.len() <= old(rest)@.len(),
        match r {
            Ok(v) => old(rest)@.len() > 0 && old(rest)@[0].0 == SVal::Integer(v) && final(rest)@
                == old(rest)@.drop_first(),
            Err(_) => !(old(rest)@.len() > 0 && (old(rest)@[0].0 matches SVal::Integer(_))),
        },
{
    match rest.pop_front() {
        Some(SExpr(SVal::Integer(v), _, _)) => Ok(v),
        Some(SExpr(_, s, e)) => Err(
            ParserError { kind: ParserErrorKind::UnexpectedToken, start: s, end: e },
        ),
        None => Err(ParserError { kind: ParserErrorKind::UnexpectedEnd, start, end }),
    }
}

/// Parses a whole script that must hold exactly one command: a
/// `(module ...)` form. Since the incomplete front end rejects every
/// non-empty module body, a success can only ever carry the empty module.
pub fn single_command(source: &str) -> (r: Result<ScriptCommand, ParserError>)
    ensures
        r matches Ok(c) ==> (c matches ScriptCommand::Module(m) && m.name@ == Seq::<char>::empty()
            && m.types@.len() == 0 && m.funcs@.len() == 0 && m.code@.len() == 0
            && m.imports@.len() == 0 && m.exports@.len() == 0 && m.data@.len() == 0
            && m.names is None),
{
    let bytes_slice = source.as_bytes();
    let mut bytes: Vec<u8> = Vec::new();
    let n = bytes_slice.len();
    let mut i: usize = 0;
    while i < n
        invariant
            i <= n,
            n == bytes_slice@.len(),
        decreases n - i,
    {
        bytes.push(bytes_slice[i]);
        i = i + 1;
    }
    let (expr, after) = match parse_expr(&bytes, 0) {
        Ok(x) => x,
        Err(e) => {
            return Err(e);
        },
    };
    let done = skip_ws(&bytes, after);
    if done < bytes.len() {
        return Err(
            ParserError { kind: ParserErrorKind::UnexpectedToken, start: done, end: done + 1 },
        );
    }
    let SExpr(val, start, end) = expr;
    match val {
        SVal::Expr(items) => {
            let mut q: VecDeque<SExpr> = VecDeque::new();
            let m = items.len();
            let mut module_head = false;
            let mut j: usize = 0;
            let mut items = items;
            while j < m
                invariant
                    j <= m,
                decreases m - j,
            {
                if items.len() > 0 {
                    let item = items.remove(0);
                    if j == 0 {
                        match &item {
                            SExpr(SVal::Atom(a), _, _) => {
                                if crate::str_eq(a.as_str(), "module") {
                                    module_head = true;
                                }
                            },
                            _ => {},
                        }
                        if !module_head {
                            return Err(
                                ParserError {
                                    kind: ParserErrorKind::UnexpectedToken,
                                    start,
                                    end,
                                },
                            );
                        }
                    } else {
                        q.push_back(item);
                    }
                }
                j = j + 1;
            }
            if !module_head {
                return Err(
                    ParserError { kind: ParserErrorKind::UnexpectedToken, start, end },
                );
            }
            parse_module(q)
        },
        _ => Err(ParserError { kind: ParserErrorKind::UnexpectedToken, start, end }),
    }
}

} // verus!
