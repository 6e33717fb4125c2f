//! Host-side descriptions of synthetic modules: native callables and
//! memories that a host registers so that guest modules can import them.

use vstd::prelude::*;

use crate::interp::Trap;
use crate::module::{Export, FuncType, MemberDesc, MemoryType};
use crate::runtime::{FuncAddr, Host};
use crate::value::Value;

verus! {

/// The registration entry of one host-supplied native callable: its export
/// name and its declared function type. The callable itself lives outside the
/// registry and is reached through [`HostDispatch`].
#[derive(Clone, PartialEq, Eq, Debug)]
pub struct ExternalFunc {
    pub name: String,
    pub typ: FuncType,
}

impl ExternalFunc {
    pub fn new(name: String, typ: FuncType) -> (r: ExternalFunc)
        ensures
            r.name == name,
            r.typ == typ,
    {
        ExternalFunc { name, typ }
    }

    pub fn name(&self) -> (r: &String)
        ensures
            r == &self.name,
    {
        &self.name
    }

    pub fn typ(&self) -> (r: &FuncType)
        ensures
            r == &self.typ,
    {
        &self.typ
    }
}

/// The registration entry of one host-described memory: its export name and
/// its declared shape.
#[derive(Clone, PartialEq, Eq, Debug)]
pub struct ExternalMemory {
    pub name: String,
    pub typ: MemoryType,
}

impl ExternalMemory {
    pub fn new(name: String, min_size: usize, max_size: Option<usize>) -> (r: ExternalMemory)
        ensures
            r.name == name,
            r.typ == (MemoryType { min: min_size, max: max_size }),
    {
        ExternalMemory { name, typ: MemoryType { min: min_size, max: max_size } }
    }

    pub fn name(&self) -> (r: &String)
        ensures
            r == &self.name,
    {
        &self.name
    }

    pub fn typ(&self) -> (r: &MemoryType)
        ensures
            r == &self.typ,
    {
        &self.typ
    }
}

/// A host-defined module, as a host describes it: a name, the native
/// callables it offers, and the memories it describes. Implemented by host
/// programs; the library reads it through [`builder_from_external`].
pub trait ExternalModule {
    fn name(&self) -> String;

    fn funcs(&self) -> Vec<ExternalFunc>;

    fn mems(&self) -> Vec<ExternalMemory>;
}

/// A description of a synthetic module ready for
/// [`Host::synthesize`]: purely host-defined, with no binary
/// origin, no imports and no memories.
#[derive(Clone, PartialEq, Eq, Debug)]
pub struct ModuleBuilder {
    pub name: String,
    pub funcs: Vec<ExternalFunc>,
    pub exports: Vec<Export>,
}

impl ModuleBuilder {
    pub fn new(name: String) -> (r: ModuleBuilder)
        ensures
            r.name == name,
            r.funcs@ == Seq::<ExternalFunc>::empty(),
            r.exports@ == Seq::<Export>::empty(),
    {
        ModuleBuilder { name, funcs: Vec::new(), exports: Vec::new() }
    }

    /// Adds one native callable and exports it under its own name. Several
    /// exports may share one registered callable; this helper adds one export
    /// per callable.
    pub fn add_func(&mut self, func: ExternalFunc)
        requires
            old(self).funcs@.len() < usize::MAX,
        ensures
            final(self).name == old(self).name,
            final(self).funcs@ == old(self).funcs@.push(func),
            final(self).exports@ == old(self).exports@.push(
                Export {
                    name: func.name,
                    description: MemberDesc::Function(old(self).funcs@.len() as u32),
                },
            ),
    {
        let idx = self.funcs.len();
        let name = func.name.clone();
        self.exports.push(Export { name, description: MemberDesc::Function(idx as u32) });
        self.funcs.push(func);
    }
}

/// Builds a [`ModuleBuilder`] from a host's own [`ExternalModule`]
/// description, exporting each callable under its own name. Memories the
/// description lists are ignored: synthetic modules own no memories. The
/// result keeps the invariant [`crate::runtime::Host::synthesize`] asks
/// of a builder: one export per callable, the export at each position
/// binding that position's callable under its name.
pub fn builder_from_external<M: ExternalModule>(module: &M) -> (r: ModuleBuilder)
    ensures
        r.funcs@.len() == r.exports@.len(),
        forall|j: int|
            0 <= j < r.exports@.len() ==> (#[trigger] r.exports@[j]).description
                == MemberDesc::Function(j as u32) && r.exports@[j].name@ == r.funcs@[j].name@,
{
    let mut builder = ModuleBuilder::new(module.name());
    let funcs = module.funcs();
    let n = funcs.len();
    let mut i: usize = 0;
    while i < n
        invariant
            i <= n,
            n == funcs@.len(),
            builder.funcs@.len() == i,
            builder.exports@.len() == i,
            forall|j: int|
                0 <= j < i ==> (#[trigger] builder.exports@[j]).description
                    == MemberDesc::Function(j as u32) && builder.exports@[j].name@
                    == builder.funcs@[j].name@,
        decreases n - i,
    {
        let f = &funcs[i];
        let func = ExternalFunc {
            name: f.name.clone(),
            typ: FuncType {
                params: crate::interp::copy_vec(&f.typ.params),
                results: crate::interp::copy_vec(&f.typ.results),
            },
        };
        builder.add_func(func);
        i = i + 1;
    }
    builder
}

/// How the execution engine reaches host-supplied native callables.
///
/// The engine pops one value per declared parameter off the calling frame's
/// operand stack, validating each against the declared parameter type, and
/// hands the popped values over in declared-parameter order; whatever this
/// returns becomes the call's result sequence. Implemented by host programs.
///
/// An implementation must honour the registry's own discipline: the arenas
/// are append-only, so a callable may register new instances but never
/// remove existing ones.
pub trait HostDispatch {
    fn call_external(
        &mut self,
        host: &mut Host,
        func: FuncAddr,
        typ: &FuncType,
        args: Vec<Value>,
    ) -> (r: Result<Vec<Value>, Trap>)
        ensures
            final(host).modules@.len() >= old(host).modules@.len(),
            final(host).funcs@.len() >= old(host).funcs@.len(),
            final(host).mems@.len() >= old(host).mems@.len(),
    ;
}

} // verus!
