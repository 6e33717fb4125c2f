//! A programmatic builder for decoded modules, used by the textual front
//! end.

use vstd::prelude::*;

use crate::module::Module;

verus! {

/// Accumulates the parts of a module under construction. The textual front
/// end is incomplete: it can so far build only modules with no sections.
#[derive(Clone, PartialEq, Eq, Debug)]
pub struct ModuleBuilder {
    pub module: Module,
}

impl ModuleBuilder {
    pub fn new() -> (r: ModuleBuilder)
        ensures
            r.module.name@ == Seq::<char>::empty(),
            r.module.types@.len() == 0,
            r.module.funcs@.len() == 0,
            r.module.code@.len() == 0,
            r.module.imports@.len() == 0,
            r.module.exports@.len() == 0,
            r.module.data@.len() == 0,
            r.module.names is None,
    {
        ModuleBuilder { module: Module::empty() }
    }

    /// Finishes the build, yielding the module as it stands.
    pub fn build(self) -> (r: Module)
        ensures
            r == self.module,
    {
        self.module
    }
}

} // verus!
