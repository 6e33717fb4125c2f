//! A small interpreter for a stack-based portable bytecode format.
//!
//! The crate is organised around three subsystems:
//! a binary loader that decodes a byte stream into a [`module::Module`],
//! a registry ([`runtime::Host`]) that links and instantiates modules into a
//! shared address space, and an execution engine ([`interp::Thread`]) that
//! drives a call stack of frames and interprets decoded instructions.

use vstd::prelude::*;

pub mod builder;
pub mod hosting;
pub mod interp;
pub mod module;
pub mod reader;
pub mod runtime;
pub mod sections;
pub mod text;
pub mod value;

verus! {

/// Compares two string slices.
///
/// Relies on `str`'s `PartialEq` implementation from std: string slices are
/// equal exactly when their character sequences are equal.
#[verifier::external_body]
pub(crate) fn str_eq(a: &str, b: &str) -> (r: bool)
    ensures
        r == (a@ == b@),
{
    a == b
}

/// A load- or link-time failure. These abort the specific load or
/// instantiate call that raised them; registry entries already created by the
/// failing call are not rolled back.
#[derive(Clone, PartialEq, Eq, Debug)]
pub enum Error {
    /// The byte stream or module description is structurally unacceptable:
    /// bad magic or version, a malformed section, a non-constant data offset,
    /// an out-of-bounds data write, or an index that points outside the
    /// module's own tables.
    InvalidModule,
    /// The byte stream ended in the middle of a structure that promised more
    /// bytes.
    UnexpectedEof,
    /// An import named a module that is not registered.
    ModuleNotFound { module: String },
    /// An import named an export that its source module does not have.
    ExportNotFound { module: String, name: String },
}

} // verus!
