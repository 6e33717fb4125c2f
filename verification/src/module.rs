//! The immutable decoded description of a guest program: types, functions,
//! code bodies, imports, exports, data segments and optional debug names.

use vstd::prelude::*;

use crate::value::{ValType, Value};

verus! {

/// A function signature: ordered parameter types and ordered result types.
#[derive(Clone, PartialEq, Eq, Debug)]
pub struct FuncType {
    pub params: Vec<ValType>,
    pub results: Vec<ValType>,
}

impl FuncType {
    pub fn new(params: Vec<ValType>, results: Vec<ValType>) -> (r: FuncType)
        ensures
            r.params == params,
            r.results == results,
    {
        FuncType { params, results }
    }

    pub fn params(&self) -> (r: &Vec<ValType>)
        ensures
            r == &self.params,
    {
        &self.params
    }

    pub fn results(&self) -> (r: &Vec<ValType>)
        ensures
            r == &self.results,
    {
        &self.results
    }
}

/// One decoded instruction. Instruction dispatch only ever reads and writes
/// the current frame's operand stack and locals; a call instruction
/// recursively drives the engine's invoke contract.
#[derive(Clone, Copy, PartialEq, Eq, Structural, Debug)]
pub enum Instruction {
    /// Push a constant value onto the current operand stack.
    Const(Value),
    /// Invoke the function at this index of the current frame's module
    /// instance, pushing its results onto the current operand stack.
    Call(u32),
}

/// The shape of one linear byte store: its initial length in bytes and an
/// optional maximum length.
#[derive(Clone, Copy, PartialEq, Eq, Structural, Debug)]
pub struct MemoryType {
    pub min: usize,
    pub max: Option<usize>,
}

impl MemoryType {
    pub fn new(min: usize, max: Option<usize>) -> (r: MemoryType)
        ensures
            r.min == min,
            r.max == max,
    {
        MemoryType { min, max }
    }
}

/// What an imported or exported member is: a function (by index into the
/// module's function space) or a memory (by its declared shape).
#[derive(Clone, PartialEq, Eq, Structural, Debug)]
pub enum MemberDesc {
    Function(u32),
    Memory(MemoryType),
}

/// One import: the exact name of a source module, the name of one of its
/// exports, and the kind of member expected.
#[derive(Clone, PartialEq, Eq, Debug)]
pub struct Import {
    pub module: String,
    pub name: String,
    pub description: MemberDesc,
}

/// One export: a name and the member it makes visible.
#[derive(Clone, PartialEq, Eq, Debug)]
pub struct Export {
    pub name: String,
    pub description: MemberDesc,
}

/// One data segment: a target memory index, a constant offset expression and
/// a raw byte payload to copy there at instantiation.
#[derive(Clone, PartialEq, Eq, Debug)]
pub struct DataSegment {
    pub index: u32,
    pub expr: Vec<Instruction>,
    pub init: Vec<u8>,
}

/// One function body: its declared local-variable types followed by its
/// instruction sequence.
#[derive(Clone, PartialEq, Eq, Debug)]
pub struct FuncBody {
    pub locals: Vec<ValType>,
    pub body: Vec<Instruction>,
}

impl FuncBody {
    pub fn locals(&self) -> (r: &Vec<ValType>)
        ensures
            r == &self.locals,
    {
        &self.locals
    }

    pub fn body(&self) -> (r: &Vec<Instruction>)
        ensures
            r == &self.body,
    {
        &self.body
    }
}

/// Debug names for one function: its own optional name and names for some of
/// its locals, each keyed by local index.
#[derive(Clone, PartialEq, Eq, Debug)]
pub struct FuncNames {
    pub func_name: Option<String>,
    pub locals: Vec<(u32, String)>,
}

/// The optional debug-name tables of a module: a module name, and per-function
/// name entries keyed by function index.
#[derive(Clone, PartialEq, Eq, Debug)]
pub struct ModuleNames {
    pub module_name: Option<String>,
    pub funcs: Vec<(u32, FuncNames)>,
}

/// An immutable decoded module. It is produced once by the loader and
/// consumed by instantiation; the handles the registry hands out survive it.
#[derive(Clone, PartialEq, Eq, Debug)]
pub struct Module {
    /// A name for the module, chosen by the caller that loads it.
    pub name: String,
    /// The ordered function type signatures.
    pub types: Vec<FuncType>,
    /// One type index per entry of `code`, matched positionally.
    pub funcs: Vec<u32>,
    /// The function bodies, matched positionally with `funcs`.
    pub code: Vec<FuncBody>,
    /// The import list, in declaration order.
    pub imports: Vec<Import>,
    /// The export list, in declaration order.
    pub exports: Vec<Export>,
    /// The data segments, applied in order at instantiation.
    pub data: Vec<DataSegment>,
    /// The optional debug names.
    pub names: Option<ModuleNames>,
}

impl Module {
    /// An empty module: no sections at all.
    pub fn empty() -> (r: Module)
        ensures
            r.name@ == Seq::<char>::empty(),
            r.types@ == Seq::<FuncType>::empty(),
            r.funcs@ == Seq::<u32>::empty(),
            r.code@ == Seq::<FuncBody>::empty(),
            r.imports@ == Seq::<Import>::empty(),
            r.exports@ == Seq::<Export>::empty(),
            r.data@ == Seq::<DataSegment>::empty(),
            r.names is None,
    {
        Module {
            name: String::new(),
            types: Vec::new(),
            funcs: Vec::new(),
            code: Vec::new(),
            imports: Vec::new(),
            exports: Vec::new(),
            data: Vec::new(),
            names: None,
        }
    }

    pub fn name(&self) -> (r: &String)
        ensures
            r == &self.name,
    {
        &self.name
    }

    /// Replaces the module's name; the loader leaves it empty and the caller
    /// that knows where the bytes came from fills it in.
    pub fn set_name(&mut self, name: String)
        ensures
            *final(self) == (Module { name, ..*old(self) }),
    {
        self.name = name;
    }
}

} // verus!
