//! The typed value representation shared by every other component.

use vstd::prelude::*;

use crate::Error;

verus! {

/// The declared type of a value.
///
/// `Nil` is a placeholder that must never be a declared parameter or result
/// type, and a `Nil`-typed value is never materialized on an operand stack.
#[derive(Clone, Copy, PartialEq, Eq, Structural, Debug)]
pub enum ValType {
    Nil,
    I32,
    I64,
    F32,
    F64,
}

/// The meaning of [`ValType::from_u8`]: the byte encoding of each value type.
pub open spec fn val_type_of_byte(v: u8) -> Option<ValType> {
    if v == 0x40 {
        Some(ValType::Nil)
    } else if v == 0x7F {
        Some(ValType::I32)
    } else if v == 0x7E {
        Some(ValType::I64)
    } else if v == 0x7D {
        Some(ValType::F32)
    } else if v == 0x7C {
        Some(ValType::F64)
    } else {
        None
    }
}

impl ValType {
    /// Decodes a value type from its one-byte encoding; any byte outside the
    /// five defined encodings is a structural error.
    pub fn from_u8(v: u8) -> (r: Result<ValType, Error>)
        ensures
            match r {
                Ok(t) => val_type_of_byte(v) == Some(t),
                Err(e) => val_type_of_byte(v) is None && e == Error::InvalidModule,
            },
    {
        match v {
            0x40 => Ok(ValType::Nil),
            0x7F => Ok(ValType::I32),
            0x7E => Ok(ValType::I64),
            0x7D => Ok(ValType::F32),
            0x7C => Ok(ValType::F64),
            _ => Err(Error::InvalidModule),
        }
    }
}

/// A runtime value: a closed tagged union carrying exactly one payload
/// matching its category.
///
/// The payloads of the two float categories are held as their IEEE 754 bit
/// patterns; the core interpreter only moves float values around and never
/// does arithmetic on them, so the bit pattern is all it reads.
#[derive(Clone, Copy, PartialEq, Eq, Structural, Debug)]
pub enum Value {
    Nil,
    I32(u32),
    I64(u64),
    F32(u32),
    F64(u64),
}

impl Value {
    /// The type tag of this value.
    pub open spec fn spec_typ(&self) -> ValType {
        match self {
            Value::Nil => ValType::Nil,
            Value::I32(_) => ValType::I32,
            Value::I64(_) => ValType::I64,
            Value::F32(_) => ValType::F32,
            Value::F64(_) => ValType::F64,
        }
    }

    /// Returns the type tag of this value.
    #[verifier::when_used_as_spec(spec_typ)]
    pub fn typ(&self) -> (t: ValType)
        ensures
            t == self.spec_typ(),
    {
        match self {
            Value::Nil => ValType::Nil,
            Value::I32(_) => ValType::I32,
            Value::I64(_) => ValType::I64,
            Value::F32(_) => ValType::F32,
            Value::F64(_) => ValType::F64,
        }
    }
}

/// Why an execution failed. "Wrong type" and "nothing there" are
/// deliberately distinct causes because they call for different diagnostics.
#[derive(Clone, PartialEq, Eq, Debug)]
pub enum TrapCause {
    /// A value was needed and the operand stack had none, or the value found
    /// was the `Nil` placeholder.
    StackUnderflow,
    /// The value found carried a different type tag than the one declared.
    TypeMismatch { expected: ValType, actual: ValType },
    /// A callee finished with values left over on its operand stack.
    StackNotEmpty,
    /// The configured maximum call depth was reached.
    CallDepthExceeded,
    /// Any other failure, described in words; how instruction dispatch and
    /// host callables report their own errors.
    Message(String),
}

/// Coercion from a [`Value`] to a native shape, used for host-call argument
/// marshaling.
pub trait FromValue: Sized {
    /// The type tag this native shape accepts.
    spec fn accepted_typ() -> ValType;

    /// Coerces `v`, failing with `TypeMismatch` when the tag disagrees and
    /// with `StackUnderflow` when `v` is the `Nil` placeholder.
    fn from_value(v: Value) -> (r: Result<Self, TrapCause>)
        ensures
            r is Ok <==> v.spec_typ() == Self::accepted_typ() && v != Value::Nil,
            r is Err ==> r->Err_0 == (if v == Value::Nil {
                TrapCause::StackUnderflow
            } else {
                TrapCause::TypeMismatch { expected: Self::accepted_typ(), actual: v.spec_typ() }
            }),
    ;
}

impl FromValue for u32 {
    open spec fn accepted_typ() -> ValType {
        ValType::I32
    }

    fn from_value(v: Value) -> (r: Result<u32, TrapCause>)
    {
        match v {
            Value::I32(x) => Ok(x),
            Value::Nil => Err(TrapCause::StackUnderflow),
            x => Err(TrapCause::TypeMismatch { expected: ValType::I32, actual: x.typ() }),
        }
    }
}

impl FromValue for u64 {
    open spec fn accepted_typ() -> ValType {
        ValType::I64
    }

    fn from_value(v: Value) -> (r: Result<u64, TrapCause>)
    {
        match v {
            Value::I64(x) => Ok(x),
            Value::Nil => Err(TrapCause::StackUnderflow),
            x => Err(TrapCause::TypeMismatch { expected: ValType::I64, actual: x.typ() }),
        }
    }
}

impl FromValue for i32 {
    open spec fn accepted_typ() -> ValType {
        ValType::I32
    }

    fn from_value(v: Value) -> (r: Result<i32, TrapCause>)
    {
        match v {
            Value::I32(x) => Ok(x as i32),
            Value::Nil => Err(TrapCause::StackUnderflow),
            x => Err(TrapCause::TypeMismatch { expected: ValType::I32, actual: x.typ() }),
        }
    }
}

impl FromValue for i64 {
    open spec fn accepted_typ() -> ValType {
        ValType::I64
    }

    fn from_value(v: Value) -> (r: Result<i64, TrapCause>)
    {
        match v {
            Value::I64(x) => Ok(x as i64),
            Value::Nil => Err(TrapCause::StackUnderflow),
            x => Err(TrapCause::TypeMismatch { expected: ValType::I64, actual: x.typ() }),
        }
    }
}

} // verus!
