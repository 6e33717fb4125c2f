//! The host registry: append-only arenas of module, function and memory
//! instances, addressed by opaque stable handles, together with the linking
//! and instantiation algorithm.

use vstd::prelude::*;

use crate::Error;
use crate::hosting::{ExternalFunc, ModuleBuilder};
use crate::module::{Export, FuncBody, FuncType, Import, Instruction, MemberDesc, MemoryType,
    Module, ModuleNames};
use crate::value::Value;

verus! {

/// A stable opaque handle to a module instance. Handles are never reused or
/// invalidated once issued: the arenas they point into are append-only.
#[derive(Clone, Copy, PartialEq, Eq, Structural, Debug)]
pub struct ModuleAddr(pub usize);

impl ModuleAddr {
    pub fn new(id: usize) -> (r: ModuleAddr)
        ensures
            r.0 == id,
    {
        ModuleAddr(id)
    }

    pub fn val(&self) -> (r: usize)
        ensures
            r == self.0,
    {
        self.0
    }
}

/// A stable opaque handle to a function instance.
#[derive(Clone, Copy, PartialEq, Eq, Structural, Debug)]
pub struct FuncAddr(pub usize);

impl FuncAddr {
    pub fn new(id: usize) -> (r: FuncAddr)
        ensures
            r.0 == id,
    {
        FuncAddr(id)
    }

    pub fn val(&self) -> (r: usize)
        ensures
            r == self.0,
    {
        self.0
    }
}

/// A stable opaque handle to a memory instance.
#[derive(Clone, Copy, PartialEq, Eq, Structural, Debug)]
pub struct MemAddr(pub usize);

impl MemAddr {
    pub fn new(id: usize) -> (r: MemAddr)
        ensures
            r.0 == id,
    {
        MemAddr(id)
    }

    pub fn val(&self) -> (r: usize)
        ensures
            r == self.0,
    {
        self.0
    }
}

/// The referent of an export: a function handle or a memory handle.
#[derive(Clone, Copy, PartialEq, Eq, Structural, Debug)]
pub enum ExternVal {
    Func(FuncAddr),
    Mem(MemAddr),
}

/// One named export of a module instance.
#[derive(Clone, PartialEq, Eq, Debug)]
pub struct ExportInst {
    pub name: String,
    pub value: ExternVal,
}

impl ExportInst {
    pub fn func(name: String, addr: FuncAddr) -> (r: ExportInst)
        ensures
            r.name == name,
            r.value == ExternVal::Func(addr),
    {
        ExportInst { name, value: ExternVal::Func(addr) }
    }

    pub fn mem(name: String, addr: MemAddr) -> (r: ExportInst)
        ensures
            r.name == name,
            r.value == ExternVal::Mem(addr),
    {
        ExportInst { name, value: ExternVal::Mem(addr) }
    }

    pub fn name(&self) -> (r: &String)
        ensures
            r == &self.name,
    {
        &self.name
    }

    pub fn value(&self) -> (r: ExternVal)
        ensures
            r == self.value,
    {
        self.value
    }
}

/// The index of the first export whose name is `name`, scanning from `i`.
pub open spec fn spec_find_export_from(exports: Seq<ExportInst>, name: Seq<char>, i: int) -> Option<
    int,
>
    decreases exports.len() - i,
{
    if i < 0 || i >= exports.len() {
        None
    } else if exports[i].name@ == name {
        Some(i)
    } else {
        spec_find_export_from(exports, name, i + 1)
    }
}

/// The index of the first export whose name is `name`.
pub open spec fn spec_find_export(exports: Seq<ExportInst>, name: Seq<char>) -> Option<int> {
    spec_find_export_from(exports, name, 0)
}

/// A module linked into the registry: its resolved function and memory
/// handles, its export table, and its optional debug names.
#[derive(Clone, PartialEq, Eq, Debug)]
pub struct ModuleInst {
    pub name: String,
    pub funcs: Vec<FuncAddr>,
    pub mems: Vec<MemAddr>,
    pub exports: Vec<ExportInst>,
    pub names: Option<ModuleNames>,
}

impl ModuleInst {
    /// Every handle this instance holds points into arenas of the given sizes.
    pub open spec fn wf_in(&self, nfuncs: int, nmems: int) -> bool {
        &&& forall|i: int| 0 <= i < self.funcs@.len() ==> (#[trigger] self.funcs@[i]).0 < nfuncs
        &&& forall|i: int| 0 <= i < self.mems@.len() ==> (#[trigger] self.mems@[i]).0 < nmems
        &&& forall|i: int|
            0 <= i < self.exports@.len() ==> match (#[trigger] self.exports@[i]).value {
                ExternVal::Func(a) => a.0 < nfuncs,
                ExternVal::Mem(a) => a.0 < nmems,
            }
    }

    pub fn new(
        name: String,
        funcs: Vec<FuncAddr>,
        mems: Vec<MemAddr>,
        exports: Vec<ExportInst>,
        names: Option<ModuleNames>,
    ) -> (r: ModuleInst)
        ensures
            r == (ModuleInst { name, funcs, mems, exports, names }),
    {
        ModuleInst { name, funcs, mems, exports, names }
    }

    pub fn name(&self) -> (r: &String)
        ensures
            r == &self.name,
    {
        &self.name
    }

    pub fn funcs(&self) -> (r: &Vec<FuncAddr>)
        ensures
            r == &self.funcs,
    {
        &self.funcs
    }

    pub fn mems(&self) -> (r: &Vec<MemAddr>)
        ensures
            r == &self.mems,
    {
        &self.mems
    }

    pub fn exports(&self) -> (r: &Vec<ExportInst>)
        ensures
            r == &self.exports,
    {
        &self.exports
    }

    pub fn names(&self) -> (r: &Option<ModuleNames>)
        ensures
            r == &self.names,
    {
        &self.names
    }

    /// Finds the first export with the given name, if any.
    pub fn find_export(&self, name: &str) -> (r: Option<&ExportInst>)
        ensures
            match r {
                Some(e) => spec_find_export(self.exports@, name@) matches Some(i) && e
                    == &self.exports@[i],
                None => spec_find_export(self.exports@, name@) is None,
            },
    {
        let n = self.exports.len();
        for i in 0..n
            invariant
                n == self.exports@.len(),
                spec_find_export(self.exports@, name@) == spec_find_export_from(
                    self.exports@,
                    name@,
                    i as int,
                ),
        {
            if crate::str_eq(self.exports[i].name.as_str(), name) {
                return Some(&self.exports[i]);
            }
        }
        None
    }
}

/// One callable unit: a declared signature and an implementation that is
/// either local decoded bytecode or a host-supplied native callable.
#[derive(Clone, PartialEq, Eq, Debug)]
pub enum FuncImpl {
    /// Bytecode owned by the module instance at this handle.
    Local(FuncBody, ModuleAddr),
    /// A host-supplied native callable, described by its registration entry
    /// and dispatched through [`crate::hosting::HostDispatch`].
    External(ExternalFunc),
}

/// One function instance in the registry's function arena.
#[derive(Clone, PartialEq, Eq, Debug)]
pub struct FuncInst {
    pub typ: FuncType,
    pub imp: FuncImpl,
}

impl FuncInst {
    /// A function instance backed by decoded bytecode.
    pub fn local(typ: FuncType, module: ModuleAddr, code: FuncBody) -> (r: FuncInst)
        ensures
            r == (FuncInst { typ, imp: FuncImpl::Local(code, module) }),
    {
        FuncInst { typ, imp: FuncImpl::Local(code, module) }
    }

    /// A function instance backed by a host-supplied native callable.
    pub fn external(func: ExternalFunc) -> (r: FuncInst)
        ensures
            r.typ.params@ == func.typ.params@,
            r.typ.results@ == func.typ.results@,
            r.imp == FuncImpl::External(func),
    {
        let typ = FuncType {
            params: crate::interp::copy_vec(&func.typ.params),
            results: crate::interp::copy_vec(&func.typ.results),
        };
        FuncInst { typ, imp: FuncImpl::External(func) }
    }

    pub fn typ(&self) -> (r: &FuncType)
        ensures
            r == &self.typ,
    {
        &self.typ
    }

    pub fn imp(&self) -> (r: &FuncImpl)
        ensures
            r == &self.imp,
    {
        &self.imp
    }

    /// The owning module of a local function instance.
    pub fn module(&self) -> (r: Option<ModuleAddr>)
        ensures
            match self.imp {
                FuncImpl::Local(_, m) => r == Some(m),
                FuncImpl::External(_) => r is None,
            },
    {
        match &self.imp {
            FuncImpl::Local(_, m) => Some(*m),
            FuncImpl::External(_) => None,
        }
    }
}

/// One linear byte store.
#[derive(Clone, PartialEq, Eq, Debug)]
pub struct MemInst {
    pub data: Vec<u8>,
    pub max: Option<usize>,
}

impl MemInst {
    /// A fresh memory sized from its declared type, zero-initialized.
    pub fn from_type(t: &MemoryType) -> (r: MemInst)
        ensures
            r.data@ == Seq::new(t.min as nat, |i: int| 0u8),
            r.max == t.max,
    {
        let data: Vec<u8> = vec![0u8; t.min];
        MemInst { data, max: t.max }
    }

    /// The current length of the memory, in bytes.
    pub fn len(&self) -> (r: usize)
        ensures
            r == self.data@.len(),
    {
        self.data.len()
    }

    pub fn max_size(&self) -> (r: Option<usize>)
        ensures
            r == self.max,
    {
        self.max
    }

    pub fn data(&self) -> (r: &Vec<u8>)
        ensures
            r == &self.data,
    {
        &self.data
    }

    /// Copies `bytes` into the memory at `offset`. The entire write range
    /// must lie within the current length; nothing else is touched.
    pub fn write(&mut self, offset: usize, bytes: &Vec<u8>)
        requires
            offset + bytes@.len() <= old(self).data@.len(),
        ensures
            final(self).data@ == spec_write_bytes(old(self).data@, offset as int, bytes@),
            final(self).max == old(self).max,
    {
        let n = bytes.len();
        let total = self.data.len();
        for j in 0..n
            invariant
                n == bytes@.len(),
                total == self.data@.len(),
                offset + n <= total,
                self.max == old(self).max,
                forall|k: int|
                    0 <= k < self.data@.len() ==> #[trigger] self.data@[k] == (if offset <= k
                        < offset + j {
                        bytes@[k - offset]
                    } else {
                        old(self).data@[k]
                    }),
        {
            self.data[offset + j] = bytes[j];
        }
        proof {
            assert(self.data@ =~= spec_write_bytes(old(self).data@, offset as int, bytes@));
        }
    }
}

/// The byte store after copying `bytes` over `data` at `offset`.
pub open spec fn spec_write_bytes(data: Seq<u8>, offset: int, bytes: Seq<u8>) -> Seq<u8> {
    Seq::new(
        data.len(),
        |k: int|
            if offset <= k < offset + bytes.len() {
                bytes[k - offset]
            } else {
                data[k]
            },
    )
}

/// The index of the first registered module instance named `name`, scanning
/// from `i`.
pub open spec fn spec_find_module_from(modules: Seq<ModuleInst>, name: Seq<char>, i: int) -> Option<
    int,
>
    decreases modules.len() - i,
{
    if i < 0 || i >= modules.len() {
        None
    } else if modules[i].name@ == name {
        Some(i)
    } else {
        spec_find_module_from(modules, name, i + 1)
    }
}

/// The index of the first registered module instance named `name`.
pub open spec fn spec_find_module(modules: Seq<ModuleInst>, name: Seq<char>) -> Option<int> {
    spec_find_module_from(modules, name, 0)
}

/// The spec-level image of a load/link failure, with names as character
/// sequences rather than owned strings.
pub enum LinkError {
    InvalidModule,
    ModuleNotFound { module: Seq<char> },
    ExportNotFound { module: Seq<char>, name: Seq<char> },
}

/// Whether the error value `e` reports exactly the spec-level failure `s`.
pub open spec fn error_reflects(e: Error, s: LinkError) -> bool {
    match s {
        LinkError::InvalidModule => e == Error::InvalidModule,
        LinkError::ModuleNotFound { module } => e matches Error::ModuleNotFound { module: m } && m@
            == module,
        LinkError::ExportNotFound { module, name } => e matches Error::ExportNotFound {
            module: m,
            name: n,
        } && m@ == module && n@ == name,
    }
}

/// Step one of instantiation: resolving each import, in declaration order,
/// against the already-registered instances. A missing module is a
/// `ModuleNotFound`, a missing export an `ExportNotFound`, and the first
/// failure stops the walk. Returns the resolved function and memory handles
/// in import-declaration order — on failure, those of the imports before
/// the failing one — and the failure if any.
pub open spec fn spec_resolve_imports(modules: Seq<ModuleInst>, imports: Seq<Import>) -> (
    Seq<FuncAddr>,
    Seq<MemAddr>,
    Option<LinkError>,
)
    decreases imports.len(),
{
    if imports.len() == 0 {
        (Seq::empty(), Seq::empty(), None)
    } else {
        let imp = imports[0];
        match spec_find_module(modules, imp.module@) {
            None => (
                Seq::empty(),
                Seq::empty(),
                Some(LinkError::ModuleNotFound { module: imp.module@ }),
            ),
            Some(mi) => match spec_find_export(modules[mi].exports@, imp.name@) {
                None => (
                    Seq::empty(),
                    Seq::empty(),
                    Some(LinkError::ExportNotFound { module: modules[mi].name@, name: imp.name@ }),
                ),
                Some(ei) => {
                    let (fs, ms, e) = spec_resolve_imports(modules, imports.drop_first());
                    match modules[mi].exports@[ei].value {
                        ExternVal::Func(a) => (seq![a] + fs, ms, e),
                        ExternVal::Mem(a) => (fs, seq![a] + ms, e),
                    }
                },
            },
        }
    }
}

/// Whether a module's function declarations are structurally sound: one
/// type index per code body, each pointing into the type section.
pub open spec fn spec_valid_funcs(m: Module) -> bool {
    &&& m.funcs@.len() == m.code@.len()
    &&& forall|i: int| 0 <= i < m.funcs@.len() ==> (#[trigger] m.funcs@[i]) < m.types@.len()
}

/// The handles a run of consecutive arena appends yields, starting at
/// `base`.
pub open spec fn spec_fresh_func_addrs(base: int, n: nat) -> Seq<FuncAddr> {
    Seq::new(n, |i: int| FuncAddr((base + i) as usize))
}

/// The data views of a memory arena.
pub open spec fn spec_mem_datas(mems: Seq<MemInst>) -> Seq<Seq<u8>> {
    mems.map(|i: int, m: MemInst| m.data@)
}

/// A zero-filled byte store of length `n`.
pub open spec fn spec_zero_mem(n: nat) -> Seq<u8> {
    Seq::new(n, |i: int| 0u8)
}

/// Step three of instantiation: applying each data segment, in order, to
/// the memory data views `datas`. The segment's offset expression must be a
/// single integer constant, its target index must name a resolved memory,
/// and the whole write range must lie within that memory's current length;
/// any violation stops the walk with `InvalidModule`, leaving the failing
/// segment entirely unwritten. Returns the data views after the maximal
/// applied prefix, and the failure if any.
pub open spec fn spec_apply_data(
    datas: Seq<Seq<u8>>,
    local_mems: Seq<MemAddr>,
    segments: Seq<crate::module::DataSegment>,
) -> (Seq<Seq<u8>>, Option<LinkError>)
    decreases segments.len(),
{
    if segments.len() == 0 {
        (datas, None)
    } else {
        let d = segments[0];
        if !(d.expr@.len() == 1 && d.expr@[0] matches Instruction::Const(Value::I32(_))) {
            (datas, Some(LinkError::InvalidModule))
        } else {
            let off = (d.expr@[0]->Const_0)->I32_0 as int;
            if d.index >= local_mems.len() {
                (datas, Some(LinkError::InvalidModule))
            } else {
                let a = local_mems[d.index as int].0 as int;
                if a >= datas.len() {
                    (datas, Some(LinkError::InvalidModule))
                } else if off + d.init@.len() > datas[a].len() {
                    (datas, Some(LinkError::InvalidModule))
                } else {
                    spec_apply_data(
                        datas.update(a, spec_write_bytes(datas[a], off, d.init@)),
                        local_mems,
                        segments.drop_first(),
                    )
                }
            }
        }
    }
}

/// How many of the first `i` exports are memory exports; each allocates one
/// fresh memory, so this is also the allocation ordinal of the `i`-th
/// export when that one is a memory export.
pub open spec fn spec_mem_exports_before(exports: Seq<Export>, i: int) -> int
    decreases i,
{
    if i <= 0 {
        0
    } else {
        spec_mem_exports_before(exports, i - 1) + (if exports[i - 1].description matches
            MemberDesc::Memory(_) {
            1int
        } else {
            0int
        })
    }
}

/// The count of memory exports grows monotonically with the prefix length,
/// and strictly across a memory export.
pub proof fn lemma_mem_exports_before_mono(exports: Seq<Export>, j: int, i: int)
    requires
        0 <= j <= i <= exports.len(),
    ensures
        spec_mem_exports_before(exports, j) <= spec_mem_exports_before(exports, i),
        (j < i && (exports[j].description matches MemberDesc::Memory(_)))
            ==> spec_mem_exports_before(exports, j) + 1 <= spec_mem_exports_before(exports, i),
    decreases i - j,
{
    if j < i {
        lemma_mem_exports_before_mono(exports, j, i - 1);
    }
}

/// A found module index lies in range and carries the name looked for.
pub proof fn lemma_find_module_some(modules: Seq<ModuleInst>, name: Seq<char>, k: int)
    ensures
        spec_find_module_from(modules, name, k) matches Some(i) ==> k <= i < modules.len()
            && modules[i].name@ == name,
    decreases modules.len() - k,
{
    if k < 0 || k >= modules.len() {
    } else if modules[k].name@ == name {
    } else {
        lemma_find_module_some(modules, name, k + 1);
    }
}

/// A found export index lies in range and carries the name looked for.
pub proof fn lemma_find_export_some(exports: Seq<ExportInst>, name: Seq<char>, k: int)
    ensures
        spec_find_export_from(exports, name, k) matches Some(i) ==> k <= i < exports.len()
            && exports[i].name@ == name,
    decreases exports.len() - k,
{
    if k < 0 || k >= exports.len() {
    } else if exports[k].name@ == name {
    } else {
        lemma_find_export_some(exports, name, k + 1);
    }
}

/// Import resolution against well-formed instances only yields handles that
/// point into the arenas.
pub proof fn lemma_resolve_imports_in_range(
    modules: Seq<ModuleInst>,
    imports: Seq<Import>,
    nf: int,
    nm: int,
)
    requires
        forall|i: int| 0 <= i < modules.len() ==> (#[trigger] modules[i]).wf_in(nf, nm),
    ensures
        ({
            let (fs, ms, e) = spec_resolve_imports(modules, imports);
            &&& forall|k: int| 0 <= k < fs.len() ==> (#[trigger] fs[k]).0 < nf
            &&& forall|k: int| 0 <= k < ms.len() ==> (#[trigger] ms[k]).0 < nm
        }),
    decreases imports.len(),
{
    if imports.len() == 0 {
    } else {
        let imp = imports[0];
        lemma_find_module_some(modules, imp.module@, 0);
        match spec_find_module(modules, imp.module@) {
            None => {},
            Some(mi) => {
                lemma_find_export_some(modules[mi].exports@, imp.name@, 0);
                match spec_find_export(modules[mi].exports@, imp.name@) {
                    None => {},
                    Some(ei) => {
                        lemma_resolve_imports_in_range(modules, imports.drop_first(), nf, nm);
                        let (fs, ms, e) = spec_resolve_imports(modules, imports.drop_first());
                        match modules[mi].exports@[ei].value {
                            ExternVal::Func(a) => {
                                assert forall|k: int|
                                    0 <= k < (seq![a] + fs).len() implies ((seq![a] + fs)[k]).0
                                    < nf by {
                                    if k > 0 {
                                        assert(fs[k - 1].0 < nf);
                                    }
                                }
                            },
                            ExternVal::Mem(a) => {
                                assert forall|k: int|
                                    0 <= k < (seq![a] + ms).len() implies ((seq![a] + ms)[k]).0
                                    < nm by {
                                    if k > 0 {
                                        assert(ms[k - 1].0 < nm);
                                    }
                                }
                            },
                        }
                    },
                }
            },
        }
    }
}

/// If every export declaration can be computed, the scan finds no invalid
/// entry.
pub proof fn lemma_no_invalid_export(funcs: Seq<FuncAddr>, exports: Seq<Export>, k: int)
    requires
        forall|j: int| 0 <= j < exports.len() ==> spec_valid_export(funcs, #[trigger] exports[j]),
    ensures
        spec_first_invalid_export(funcs, exports, k) is None,
    decreases exports.len() - k,
{
    if k < 0 || k >= exports.len() {
    } else {
        lemma_no_invalid_export(funcs, exports, k + 1);
    }
}

/// Every declared export of a successfully instantiated module resolves by
/// name on the new instance: the instance's export table carries the
/// declared names in order, and looking any one of them up finds an export.
pub proof fn lemma_exports_resolve(exports: Seq<ExportInst>, names: Seq<Seq<char>>, i: int)
    requires
        exports.len() == names.len(),
        forall|j: int| 0 <= j < exports.len() ==> (#[trigger] exports[j]).name@ == names[j],
        0 <= i < names.len(),
    ensures
        spec_find_export(exports, names[i]) is Some,
{
    lemma_find_export_reaches(exports, names[i], 0, i);
}

/// The scan from `k` finds an export when one with the name stands at or
/// after `k`.
pub proof fn lemma_find_export_reaches(exports: Seq<ExportInst>, name: Seq<char>, k: int, j: int)
    requires
        0 <= k <= j < exports.len(),
        exports[j].name@ == name,
    ensures
        spec_find_export_from(exports, name, k) is Some,
    decreases j - k,
{
    if exports[k].name@ == name {
    } else {
        lemma_find_export_reaches(exports, name, k + 1, j);
    }
}

/// Instance well-formedness only speaks of upper bounds, so it survives
/// arena growth.
pub proof fn lemma_wf_in_monotone(modules: Seq<ModuleInst>, nf0: int, nm0: int, nf: int, nm: int)
    requires
        forall|i: int| 0 <= i < modules.len() ==> (#[trigger] modules[i]).wf_in(nf0, nm0),
        nf0 <= nf,
        nm0 <= nm,
    ensures
        forall|i: int| 0 <= i < modules.len() ==> (#[trigger] modules[i]).wf_in(nf, nm),
{
    assert forall|i: int| 0 <= i < modules.len() implies (#[trigger] modules[i]).wf_in(
        nf,
        nm,
    ) by {
        assert(modules[i].wf_in(nf0, nm0));
    }
}

/// When the scan from `k` finds no invalid export, every export from `k`
/// on can be computed.
pub proof fn lemma_all_valid_exports(funcs: Seq<FuncAddr>, exports: Seq<Export>, k: int, j: int)
    requires
        spec_first_invalid_export(funcs, exports, k) is None,
        0 <= k <= j < exports.len(),
    ensures
        spec_valid_export(funcs, exports[j]),
    decreases j - k,
{
    if k < j {
        lemma_all_valid_exports(funcs, exports, k + 1, j);
    }
}

/// Whether one export declaration can be computed against the resolved
/// function handles: a function export must point into the handle table.
pub open spec fn spec_valid_export(funcs: Seq<FuncAddr>, e: Export) -> bool {
    match e.description {
        MemberDesc::Function(idx) => (idx as int) < funcs.len(),
        MemberDesc::Memory(_) => true,
    }
}

/// The index of the first export that cannot be computed, scanning from
/// `k`.
pub open spec fn spec_first_invalid_export(
    funcs: Seq<FuncAddr>,
    exports: Seq<Export>,
    k: int,
) -> Option<int>
    decreases exports.len() - k,
{
    if k < 0 || k >= exports.len() {
        None
    } else if !spec_valid_export(funcs, exports[k]) {
        Some(k)
    } else {
        spec_first_invalid_export(funcs, exports, k + 1)
    }
}

/// The referent the `j`-th export binds to: a function export binds to the
/// already-resolved handle at its index, a memory export to the fresh
/// memory allocated for it, numbered consecutively from `base_mem`.
pub open spec fn spec_export_value(
    funcs: Seq<FuncAddr>,
    exports: Seq<Export>,
    base_mem: int,
    j: int,
) -> ExternVal {
    match exports[j].description {
        MemberDesc::Function(idx) => ExternVal::Func(funcs[idx as int]),
        MemberDesc::Memory(_) => ExternVal::Mem(
            MemAddr((base_mem + spec_mem_exports_before(exports, j)) as usize),
        ),
    }
}

/// The process-wide registry: three append-only arenas addressed by opaque
/// stable handles. Handles are never reused or invalidated once issued;
/// there is no unload path.
pub struct Host {
    pub modules: Vec<ModuleInst>,
    pub funcs: Vec<FuncInst>,
    pub mems: Vec<MemInst>,
}

impl Host {
    /// Every handle stored inside a registered instance points into the
    /// registry's own arenas.
    pub open spec fn wf(&self) -> bool {
        forall|i: int|
            0 <= i < self.modules@.len() ==> (#[trigger] self.modules@[i]).wf_in(
                self.funcs@.len() as int,
                self.mems@.len() as int,
            )
    }

    pub fn new() -> (r: Host)
        ensures
            r.modules@ == Seq::<ModuleInst>::empty(),
            r.funcs@ == Seq::<FuncInst>::empty(),
            r.mems@ == Seq::<MemInst>::empty(),
            r.wf(),
    {
        Host { modules: Vec::new(), funcs: Vec::new(), mems: Vec::new() }
    }

    /// The module instance behind a handle. Handles issued by this registry
    /// stay valid for its whole life.
    pub fn get_module(&self, addr: ModuleAddr) -> (r: &ModuleInst)
        requires
            addr.0 < self.modules@.len(),
        ensures
            r == &self.modules@[addr.0 as int],
    {
        &self.modules[addr.0]
    }

    /// The function instance behind a handle.
    pub fn get_func(&self, addr: FuncAddr) -> (r: &FuncInst)
        requires
            addr.0 < self.funcs@.len(),
        ensures
            r == &self.funcs@[addr.0 as int],
    {
        &self.funcs[addr.0]
    }

    /// The memory instance behind a handle.
    pub fn get_mem(&self, addr: MemAddr) -> (r: &MemInst)
        requires
            addr.0 < self.mems@.len(),
        ensures
            r == &self.mems@[addr.0 as int],
    {
        &self.mems[addr.0]
    }

    /// The module arena, in handle order.
    pub fn modules(&self) -> (r: &Vec<ModuleInst>)
        ensures
            r == &self.modules,
    {
        &self.modules
    }

    /// The function arena, in handle order.
    pub fn funcs(&self) -> (r: &Vec<FuncInst>)
        ensures
            r == &self.funcs,
    {
        &self.funcs
    }

    /// The memory arena, in handle order.
    pub fn mems(&self) -> (r: &Vec<MemInst>)
        ensures
            r == &self.mems,
    {
        &self.mems
    }

    /// Finds the handle of the first registered module instance with the
    /// given name, by exact-name linear lookup.
    pub fn find_module(&self, name: &str) -> (r: Option<ModuleAddr>)
        ensures
            match r {
                Some(a) => a.0 < self.modules@.len() && spec_find_module(self.modules@, name@)
                    == Some(a.0 as int),
                None => spec_find_module(self.modules@, name@) is None,
            },
    {
        let n = self.modules.len();
        for i in 0..n
            invariant
                n == self.modules@.len(),
                spec_find_module(self.modules@, name@) == spec_find_module_from(
                    self.modules@,
                    name@,
                    i as int,
                ),
        {
            if crate::str_eq(self.modules[i].name.as_str(), name) {
                return Some(ModuleAddr(i));
            }
        }
        None
    }

    /// Looks up the named export of a registered module instance; a missing
    /// export is an `ExportNotFound` naming the module and the export.
    pub fn resolve_import(&self, module: ModuleAddr, name: &str) -> (r: Result<&ExportInst, Error>)
        requires
            module.0 < self.modules@.len(),
        ensures
            ({
                let exports = self.modules@[module.0 as int].exports@;
                match r {
                    Ok(e) => spec_find_export(exports, name@) matches Some(i) && e == &exports[i],
                    Err(err) => err matches Error::ExportNotFound { module: m, name: n }
                        && spec_find_export(exports, name@) is None && m@ == self.modules@[module.0
                        as int].name@ && n@ == name@,
                }
            }),
    {
        let module_inst = self.get_module(module);
        match module_inst.find_export(name) {
            Some(export) => Ok(export),
            None => Err(
                Error::ExportNotFound {
                    module: module_inst.name.clone(),
                    name: name.to_owned(),
                },
            ),
        }
    }

    /// Resolves the imports of `module` from index `i` on, appending the
    /// resolved handles to `funcs` and `mems` in import-declaration order.
    fn resolve_imports_from(
        &self,
        module: &Module,
        i: usize,
        funcs: &mut Vec<FuncAddr>,
        mems: &mut Vec<MemAddr>,
    ) -> (r: Result<(), Error>)
        requires
            i <= module.imports@.len(),
        ensures
            ({
                let (fs, ms, e) = spec_resolve_imports(
                    self.modules@,
                    module.imports@.skip(i as int),
                );
                &&& final(funcs)@ == old(funcs)@ + fs
                &&& final(mems)@ == old(mems)@ + ms
                &&& match e {
                    None => r is Ok,
                    Some(le) => r matches Err(err) && error_reflects(err, le),
                }
            }),
        decreases module.imports@.len() - i,
    {
        if i == module.imports.len() {
            proof {
                assert(module.imports@.skip(i as int) =~= Seq::<Import>::empty());
                assert(old(funcs)@ + Seq::<FuncAddr>::empty() =~= old(funcs)@);
                assert(old(mems)@ + Seq::<MemAddr>::empty() =~= old(mems)@);
            }
            return Ok(());
        }
        proof {
            assert(module.imports@.skip(i as int)[0] == module.imports@[i as int]);
            assert(module.imports@.skip(i as int).drop_first() =~= module.imports@.skip(i + 1));
        }
        let import = &module.imports[i];
        match self.find_module(import.module.as_str()) {
            None => {
                proof {
                    assert(funcs@ =~= old(funcs)@ + Seq::<FuncAddr>::empty());
                    assert(mems@ =~= old(mems)@ + Seq::<MemAddr>::empty());
                }
                Err(Error::ModuleNotFound { module: import.module.clone() })
            },
            Some(module_addr) => {
                let export_value = match self.resolve_import(module_addr, import.name.as_str()) {
                    Ok(export) => export.value,
                    Err(e) => {
                        proof {
                            assert(funcs@ =~= old(funcs)@ + Seq::<FuncAddr>::empty());
                            assert(mems@ =~= old(mems)@ + Seq::<MemAddr>::empty());
                        }
                        return Err(e);
                    },
                };
                match export_value {
                    ExternVal::Func(func_addr) => funcs.push(func_addr),
                    ExternVal::Mem(mem_addr) => mems.push(mem_addr),
                }
                let r = self.resolve_imports_from(module, i + 1, funcs, mems);
                proof {
                    let (fs, ms, e) = spec_resolve_imports(
                        self.modules@,
                        module.imports@.skip(i + 1),
                    );
                    match export_value {
                        ExternVal::Func(a) => {
                            assert(funcs@ =~= old(funcs)@ + (seq![a] + fs));
                            assert(mems@ =~= old(mems)@ + ms);
                        },
                        ExternVal::Mem(a) => {
                            assert(funcs@ =~= old(funcs)@ + fs);
                            assert(mems@ =~= old(mems)@ + (seq![a] + ms));
                        },
                    }
                }
                r
            },
        }
    }

    /// Appends one `Local` function instance per declared (type index, code
    /// body) pair, matched positionally, after validating that the pairs
    /// line up and every type index is in range.
    fn instantiate_funcs(
        &mut self,
        instance_addr: ModuleAddr,
        module: &Module,
        funcs: &mut Vec<FuncAddr>,
    ) -> (r: Result<(), Error>)
        ensures
            final(self).modules@ == old(self).modules@,
            final(self).mems@ == old(self).mems@,
            !spec_valid_funcs(*module) ==> r == Err::<(), Error>(Error::InvalidModule) && final(self).funcs@ == old(self).funcs@ && final(funcs)@ == old(funcs)@,
            spec_valid_funcs(*module) ==> {
                &&& r is Ok
                &&& final(funcs)@ == old(funcs)@ + spec_fresh_func_addrs(
                    old(self).funcs@.len() as int,
                    module.funcs@.len(),
                )
                &&& final(self).funcs@.len() == old(self).funcs@.len() + module.funcs@.len()
                &&& forall|k: int|
                    0 <= k < old(self).funcs@.len() ==> final(self).funcs@[k] == old(self).funcs@[k]
                &&& forall|k: int|
                    0 <= k < module.funcs@.len() ==> {
                        let fi = #[trigger] final(self).funcs@[old(self).funcs@.len() + k];
                        &&& fi.typ.params@ == module.types@[module.funcs@[k] as int].params@
                        &&& fi.typ.results@ == module.types@[module.funcs@[k] as int].results@
                        &&& fi.imp matches FuncImpl::Local(code, owner) && owner == instance_addr
                            && code.locals@ == module.code@[k].locals@ && code.body@
                            == module.code@[k].body@
                    }
            },
    {
        let n = module.funcs.len();
        if n != module.code.len() {
            return Err(Error::InvalidModule);
        }
        for i in 0..n
            invariant
                n == module.funcs@.len(),
                n == module.code@.len(),
                forall|k: int| 0 <= k < i ==> (#[trigger] module.funcs@[k]) < module.types@.len(),
        {
            if module.funcs[i] as usize >= module.types.len() {
                return Err(Error::InvalidModule);
            }
        }
        for i in 0..n
            invariant
                n == module.funcs@.len(),
                n == module.code@.len(),
                spec_valid_funcs(*module),
                self.modules@ == old(self).modules@,
                self.mems@ == old(self).mems@,
                self.funcs@.len() == old(self).funcs@.len() + i,
                funcs@ == old(funcs)@ + spec_fresh_func_addrs(
                    old(self).funcs@.len() as int,
                    i as nat,
                ),
                forall|k: int|
                    0 <= k < old(self).funcs@.len() ==> self.funcs@[k] == old(self).funcs@[k],
                forall|k: int|
                    0 <= k < i ==> {
                        let fi = #[trigger] self.funcs@[old(self).funcs@.len() + k];
                        &&& fi.typ.params@ == module.types@[module.funcs@[k] as int].params@
                        &&& fi.typ.results@ == module.types@[module.funcs@[k] as int].results@
                        &&& fi.imp matches FuncImpl::Local(code, owner) && owner == instance_addr
                            && code.locals@ == module.code@[k].locals@ && code.body@
                            == module.code@[k].body@
                    },
        {
            let func_addr = FuncAddr::new(self.funcs.len());
            funcs.push(func_addr);
            let type_id = module.funcs[i] as usize;
            let typ = FuncType {
                params: crate::interp::copy_vec(&module.types[type_id].params),
                results: crate::interp::copy_vec(&module.types[type_id].results),
            };
            let body = FuncBody {
                locals: crate::interp::copy_vec(&module.code[i].locals),
                body: crate::interp::copy_vec(&module.code[i].body),
            };
            self.funcs.push(FuncInst::local(typ, instance_addr, body));
            proof {
                assert(funcs@ =~= old(funcs)@ + spec_fresh_func_addrs(
                    old(self).funcs@.len() as int,
                    (i + 1) as nat,
                ));
            }
        }
        Ok(())
    }

    /// Applies each data segment of `module`, in order, against the
    /// already-resolved memory handles. A segment that fails the shape,
    /// index or bounds check stops instantiation with `InvalidModule` and
    /// writes nothing of its payload.
    fn instantiate_data(&mut self, module: &Module, mems: &Vec<MemAddr>) -> (r: Result<(), Error>)
        ensures
            final(self).modules@ == old(self).modules@,
            final(self).funcs@ == old(self).funcs@,
            final(self).mems@.len() == old(self).mems@.len(),
            forall|k: int|
                0 <= k < old(self).mems@.len() ==> final(self).mems@[k].max == old(self).mems@[k].max,
            ({
                let (after, err) = spec_apply_data(
                    spec_mem_datas(old(self).mems@),
                    mems@,
                    module.data@,
                );
                &&& spec_mem_datas(final(self).mems@) == after
                &&& match err {
                    None => r is Ok,
                    Some(le) => r matches Err(e) && error_reflects(e, le),
                }
            }),
    {
        proof {
            assert(module.data@.skip(0) =~= module.data@);
        }
        let n = module.data.len();
        for i in 0..n
            invariant
                n == module.data@.len(),
                self.modules@ == old(self).modules@,
                self.funcs@ == old(self).funcs@,
                self.mems@.len() == old(self).mems@.len(),
                forall|k: int|
                    0 <= k < old(self).mems@.len() ==> self.mems@[k].max == old(self).mems@[k].max,
                spec_apply_data(spec_mem_datas(old(self).mems@), mems@, module.data@)
                    == spec_apply_data(spec_mem_datas(self.mems@), mems@, module.data@.skip(
                    i as int,
                )),
        {
            proof {
                assert(module.data@.skip(i as int)[0] == module.data@[i as int]);
                assert(module.data@.skip(i as int).drop_first() =~= module.data@.skip(i + 1));
            }
            let data = &module.data[i];
            // The offset must be a single constant-integer expression.
            if data.expr.len() != 1 {
                return Err(Error::InvalidModule);
            }
            let offset: usize = match &data.expr[0] {
                Instruction::Const(Value::I32(v)) => (*v) as usize,
                _ => {
                    return Err(Error::InvalidModule);
                },
            };
            if data.index as usize >= mems.len() {
                return Err(Error::InvalidModule);
            }
            let mem_addr = mems[data.index as usize];
            if mem_addr.0 >= self.mems.len() {
                return Err(Error::InvalidModule);
            }
            // Bounds check: the whole write range must lie within the
            // memory's current length, else nothing at all is written.
            let ghost datas0 = spec_mem_datas(self.mems@);
            let mem_len = self.mems[mem_addr.0].data.len();
            if data.init.len() > mem_len || offset > mem_len - data.init.len() {
                return Err(Error::InvalidModule);
            }
            let mem = &mut self.mems[mem_addr.0];
            mem.write(offset, &data.init);
            proof {
                assert(spec_mem_datas(self.mems@) =~= datas0.update(
                    mem_addr.0 as int,
                    spec_write_bytes(datas0[mem_addr.0 as int], offset as int, data.init@),
                ));
            }
        }
        proof {
            assert(module.data@.skip(n as int) =~= Seq::<crate::module::DataSegment>::empty());
        }
        Ok(())
    }

    /// Computes the export table: function exports bind to already-resolved
    /// handles, memory exports allocate a fresh memory sized from the
    /// declared type. A function export whose index is out of range stops
    /// the walk with `InvalidModule`; memories allocated for earlier
    /// exports stay, as arena entries are never rolled back.
    fn export_module(
        &mut self,
        funcs: &Vec<FuncAddr>,
        module_exports: &Vec<Export>,
    ) -> (r: Result<Vec<ExportInst>, Error>)
        ensures
            final(self).modules@ == old(self).modules@,
            final(self).funcs@ == old(self).funcs@,
            forall|k: int|
                0 <= k < old(self).mems@.len() ==> final(self).mems@[k] == old(self).mems@[k],
            final(self).mems@.len() >= old(self).mems@.len(),
            ({
                let base = old(self).mems@.len() as int;
                let cut = match spec_first_invalid_export(funcs@, module_exports@, 0) {
                    Some(f) => f,
                    None => module_exports@.len() as int,
                };
                &&& final(self).mems@.len() == base + spec_mem_exports_before(
                    module_exports@,
                    cut,
                )
                &&& forall|j: int|
                    0 <= j < cut ==> match (#[trigger] module_exports@[j].description) {
                        MemberDesc::Memory(mt) => {
                            let m = final(self).mems@[base + spec_mem_exports_before(
                                module_exports@,
                                j,
                            )];
                            m.data@ == spec_zero_mem(mt.min as nat) && m.max == mt.max
                        },
                        MemberDesc::Function(_) => true,
                    }
                &&& match spec_first_invalid_export(funcs@, module_exports@, 0) {
                    None => r matches Ok(es) && es@.len() == module_exports@.len() && (forall|
                        j: int,
                    |
                        0 <= j < module_exports@.len() ==> (#[trigger] es@[j]).name@
                            == module_exports@[j].name@ && es@[j].value == spec_export_value(
                            funcs@,
                            module_exports@,
                            base,
                            j,
                        )),
                    Some(_) => r == Err::<Vec<ExportInst>, Error>(Error::InvalidModule),
                }
            }),
    {
        let ghost base = self.mems@.len() as int;
        let mut exports: Vec<ExportInst> = Vec::new();
        let n = module_exports.len();
        for i in 0..n
            invariant
                n == module_exports@.len(),
                self.modules@ == old(self).modules@,
                self.funcs@ == old(self).funcs@,
                base == old(self).mems@.len() as int,
                forall|k: int| 0 <= k < base ==> self.mems@[k] == old(self).mems@[k],
                spec_mem_exports_before(module_exports@, i as int) >= 0,
                self.mems@.len() == base + spec_mem_exports_before(module_exports@, i as int),
                forall|j: int|
                    0 <= j < i ==> match (#[trigger] module_exports@[j].description) {
                        MemberDesc::Memory(mt) => {
                            let m = self.mems@[base + spec_mem_exports_before(module_exports@, j)];
                            m.data@ == spec_zero_mem(mt.min as nat) && m.max == mt.max
                        },
                        MemberDesc::Function(_) => true,
                    },
                spec_first_invalid_export(funcs@, module_exports@, 0)
                    == spec_first_invalid_export(funcs@, module_exports@, i as int),
                exports@.len() == i,
                forall|j: int|
                    0 <= j < i ==> (#[trigger] exports@[j]).name@ == module_exports@[j].name@
                        && exports@[j].value == spec_export_value(
                        funcs@,
                        module_exports@,
                        base,
                        j,
                    ),
        {
            proof {
                assert(spec_mem_exports_before(module_exports@, i + 1) == spec_mem_exports_before(
                    module_exports@,
                    i as int,
                ) + (if module_exports@[i as int].description matches MemberDesc::Memory(_) {
                    1int
                } else {
                    0int
                }));
            }
            let export = &module_exports[i];
            match &export.description {
                MemberDesc::Function(func_idx) => {
                    if (*func_idx) as usize >= funcs.len() {
                        return Err(Error::InvalidModule);
                    }
                    let func_addr = funcs[(*func_idx) as usize];
                    exports.push(ExportInst::func(export.name.clone(), func_addr));
                },
                MemberDesc::Memory(mem_type) => {
                    let ghost prev = self.mems@;
                    let mem_addr = MemAddr::new(self.mems.len());
                    self.mems.push(MemInst::from_type(mem_type));
                    proof {
                        lemma_mem_exports_before_mono(module_exports@, 0, i as int);
                        assert(self.mems@[prev.len() as int].data@ =~= spec_zero_mem(
                            mem_type.min as nat,
                        ));
                        assert(forall|k: int| 0 <= k < prev.len() ==> self.mems@[k] == prev[k]);
                        assert forall|j: int| 0 <= j < i + 1 implies match (
                        #[trigger] module_exports@[j].description) {
                            MemberDesc::Memory(mt) => {
                                let m = self.mems@[base + spec_mem_exports_before(
                                    module_exports@,
                                    j,
                                )];
                                m.data@ == spec_zero_mem(mt.min as nat) && m.max == mt.max
                            },
                            MemberDesc::Function(_) => true,
                        } by {
                            lemma_mem_exports_before_mono(module_exports@, 0, j);
                            if j < i {
                                lemma_mem_exports_before_mono(module_exports@, j, i as int);
                            } else {
                                assert(base + spec_mem_exports_before(module_exports@, i as int)
                                    == prev.len());
                            }
                        }
                    }
                    exports.push(ExportInst::mem(export.name.clone(), mem_addr));
                },
            }
        }
        Ok(exports)
    }

    /// Resolves every import of `module`, in declaration order, appending
    /// the resolved function and memory handles to `funcs` and `mems`. A
    /// missing module or export fails the whole call, and the registry
    /// itself is never touched.
    fn resolve_imports(
        &self,
        module: &Module,
        funcs: &mut Vec<FuncAddr>,
        mems: &mut Vec<MemAddr>,
    ) -> (r: Result<(), Error>)
        ensures
            ({
                let (fs, ms, e) = spec_resolve_imports(self.modules@, module.imports@);
                &&& final(funcs)@ == old(funcs)@ + fs
                &&& final(mems)@ == old(mems)@ + ms
                &&& match e {
                    None => r is Ok,
                    Some(le) => r matches Err(err) && error_reflects(err, le),
                }
            }),
    {
        let r = self.resolve_imports_from(module, 0, funcs, mems);
        proof {
            assert(module.imports@.skip(0) =~= module.imports@);
        }
        r
    }

    /// Registers a purely host-defined module: each native callable of the
    /// builder becomes an `External` function instance, exported under the
    /// builder's declared names. This is how a host injects an environment
    /// module before a guest that imports from it is instantiated.
    #[verifier::rlimit(80)]
    pub fn synthesize(&mut self, module: ModuleBuilder) -> (r: ModuleAddr)
        requires
            old(self).wf(),
            forall|j: int|
                0 <= j < module.exports@.len() ==> match (
                #[trigger] module.exports@[j].description) {
                    MemberDesc::Function(idx) => (idx as int) < module.funcs@.len(),
                    MemberDesc::Memory(_) => true,
                },
        ensures
            final(self).wf(),
            r.0 == old(self).modules@.len(),
            final(self).modules@.len() == old(self).modules@.len() + 1,
            forall|k: int|
                0 <= k < old(self).modules@.len() ==> final(self).modules@[k] == old(self).modules@[k],
            final(self).funcs@.len() == old(self).funcs@.len() + module.funcs@.len(),
            forall|k: int| 0 <= k < old(self).funcs@.len() ==> final(self).funcs@[k] == old(self).funcs@[k],
            forall|k: int|
                0 <= k < module.funcs@.len() ==> {
                    let fi = #[trigger] final(self).funcs@[old(self).funcs@.len() + k];
                    &&& fi.typ.params@ == module.funcs@[k].typ.params@
                    &&& fi.typ.results@ == module.funcs@[k].typ.results@
                    &&& fi.imp == FuncImpl::External(module.funcs@[k])
                },
            ({
                let inst = final(self).modules@.last();
                let all_funcs = spec_fresh_func_addrs(
                    old(self).funcs@.len() as int,
                    module.funcs@.len(),
                );
                &&& inst.name == module.name
                &&& inst.funcs@ == all_funcs
                &&& inst.mems@ == Seq::<MemAddr>::empty()
                &&& inst.names is None
                &&& inst.exports@.len() == module.exports@.len()
                &&& forall|j: int|
                    0 <= j < module.exports@.len() ==> (#[trigger] inst.exports@[j]).name@
                        == module.exports@[j].name@ && inst.exports@[j].value == spec_export_value(
                        all_funcs,
                        module.exports@,
                        old(self).mems@.len() as int,
                        j,
                    )
            }),
    {
        let ModuleBuilder { name, funcs: mut bfuncs, exports: bexports } = module;
        let ghost bfuncs0 = bfuncs@;
        let module_addr = ModuleAddr::new(self.modules.len());
        let mut funcs: Vec<FuncAddr> = Vec::new();
        let n = bfuncs.len();
        for i in 0..n
            invariant
                n == bfuncs0.len(),
                bfuncs@ == bfuncs0.skip(i as int),
                self.modules@ == old(self).modules@,
                self.mems@ == old(self).mems@,
                self.funcs@.len() == old(self).funcs@.len() + i,
                forall|k: int| 0 <= k < old(self).funcs@.len() ==> self.funcs@[k] == old(self).funcs@[k],
                forall|k: int|
                    0 <= k < i ==> {
                        let fi = #[trigger] self.funcs@[old(self).funcs@.len() + k];
                        &&& fi.typ.params@ == bfuncs0[k].typ.params@
                        &&& fi.typ.results@ == bfuncs0[k].typ.results@
                        &&& fi.imp == FuncImpl::External(bfuncs0[k])
                    },
                funcs@ == spec_fresh_func_addrs(old(self).funcs@.len() as int, i as nat),
        {
            proof {
                assert(bfuncs0.skip(i as int)[0] == bfuncs0[i as int]);
                assert(bfuncs0.skip(i as int).drop_first() =~= bfuncs0.skip(i + 1));
            }
            let func_addr = FuncAddr::new(self.funcs.len());
            let func = bfuncs.remove(0);
            self.funcs.push(FuncInst::external(func));
            funcs.push(func_addr);
            proof {
                assert(funcs@ =~= spec_fresh_func_addrs(
                    old(self).funcs@.len() as int,
                    (i + 1) as nat,
                ));
            }
        }
        proof {
            lemma_no_invalid_export(funcs@, bexports@, 0);
        }
        let exports = match self.export_module(&funcs, &bexports) {
            Ok(es) => es,
            Err(_) => {
                proof {
                    assert(false);
                }
                Vec::new()
            },
        };
        self.modules.push(ModuleInst::new(name, funcs, Vec::new(), exports, None));
        proof {
            let nf = self.funcs@.len() as int;
            let nm = self.mems@.len() as int;
            assert forall|i: int| 0 <= i < self.modules@.len() implies (
            #[trigger] self.modules@[i]).wf_in(nf, nm) by {
                if i < old(self).modules@.len() {
                    assert(old(self).modules@[i].wf_in(
                        old(self).funcs@.len() as int,
                        old(self).mems@.len() as int,
                    ));
                } else {
                    let inst = self.modules@[i];
                    assert forall|j: int|
                        0 <= j < inst.exports@.len() implies match (
                    #[trigger] inst.exports@[j]).value {
                        ExternVal::Func(a) => a.0 < nf,
                        ExternVal::Mem(a) => a.0 < nm,
                    } by {
                        lemma_mem_exports_before_mono(bexports@, 0, j);
                        lemma_mem_exports_before_mono(bexports@, j, bexports@.len() as int);
                    }
                }
            }
        }
        module_addr
    }

    /// Links and instantiates a decoded module, consuming it: imports are
    /// resolved first, then local functions are instantiated, then data
    /// segments are applied, then the export table is computed and the new
    /// instance registered. A failing later step does not roll back arena
    /// entries that earlier steps already created.
    #[verifier::rlimit(80)]
    pub fn instantiate(&mut self, module: Module) -> (r: Result<ModuleAddr, Error>)
        requires
            old(self).wf(),
        ensures
            final(self).wf(),
            ({
                let (ifuncs, imems, rerr) = spec_resolve_imports(
                    old(self).modules@,
                    module.imports@,
                );
                match rerr {
                    Some(le) => r matches Err(e) && error_reflects(e, le) && final(self).modules@
                        == old(self).modules@ && final(self).funcs@ == old(self).funcs@ && final(self).mems@ == old(self).mems@,
                    None => {
                        let nf0 = old(self).funcs@.len() as int;
                        let base = old(self).mems@.len() as int;
                        let all_funcs = ifuncs + spec_fresh_func_addrs(
                            nf0,
                            module.funcs@.len(),
                        );
                        if !spec_valid_funcs(module) {
                            &&& r == Err::<ModuleAddr, Error>(Error::InvalidModule)
                            &&& final(self).modules@ == old(self).modules@
                            &&& final(self).funcs@ == old(self).funcs@
                            &&& final(self).mems@ == old(self).mems@
                        } else {
                            &&& final(self).funcs@.len() == nf0 + module.funcs@.len()
                            &&& forall|k: int|
                                0 <= k < nf0 ==> final(self).funcs@[k] == old(self).funcs@[k]
                            &&& forall|k: int|
                                0 <= k < module.funcs@.len() ==> {
                                    let fi = #[trigger] final(self).funcs@[nf0 + k];
                                    &&& fi.typ.params@ == module.types@[module.funcs@[k] as int].params@
                                    &&& fi.typ.results@ == module.types@[module.funcs@[k] as int].results@
                                    &&& fi.imp matches FuncImpl::Local(code, owner) && owner.0
                                        == old(self).modules@.len() && code.locals@
                                        == module.code@[k].locals@ && code.body@
                                        == module.code@[k].body@
                                }
                            &&& ({
                                let (after, derr) = spec_apply_data(
                                    spec_mem_datas(old(self).mems@),
                                    imems,
                                    module.data@,
                                );
                                match derr {
                                    Some(le) => r matches Err(e) && error_reflects(e, le)
                                        && final(self).modules@ == old(self).modules@ && final(self).mems@.len() == base && spec_mem_datas(final(self).mems@)
                                        == after,
                                    None => match spec_first_invalid_export(
                                        all_funcs,
                                        module.exports@,
                                        0,
                                    ) {
                                        Some(f) => {
                                            &&& r == Err::<ModuleAddr, Error>(
                                                Error::InvalidModule,
                                            )
                                            &&& final(self).modules@ == old(self).modules@
                                            &&& final(self).mems@.len() == base
                                                + spec_mem_exports_before(module.exports@, f)
                                            &&& forall|k: int|
                                                0 <= k < base ==> (#[trigger] final(self).mems@[k]).data@
                                                    == after[k] && final(self).mems@[k].max
                                                    == old(self).mems@[k].max
                                        },
                                        None => {
                                            let inst = final(self).modules@.last();
                                            &&& r == Ok::<ModuleAddr, Error>(
                                                ModuleAddr(old(self).modules@.len() as usize),
                                            )
                                            &&& final(self).modules@.len() == old(self).modules@.len() + 1
                                            &&& forall|k: int|
                                                0 <= k < old(self).modules@.len() ==> final(self).modules@[k] == old(self).modules@[k]
                                            &&& inst.name == module.name
                                            &&& inst.funcs@ == all_funcs
                                            &&& inst.mems@ == imems
                                            &&& inst.names == module.names
                                            &&& inst.exports@.len() == module.exports@.len()
                                            &&& forall|j: int|
                                                0 <= j < module.exports@.len() ==> (
                                                #[trigger] inst.exports@[j]).name@
                                                    == module.exports@[j].name@
                                                    && inst.exports@[j].value
                                                    == spec_export_value(
                                                    all_funcs,
                                                    module.exports@,
                                                    base,
                                                    j,
                                                )
                                            &&& final(self).mems@.len() == base
                                                + spec_mem_exports_before(
                                                module.exports@,
                                                module.exports@.len() as int,
                                            )
                                            &&& forall|k: int|
                                                0 <= k < base ==> (#[trigger] final(self).mems@[k]).data@ == after[k] && final(self).mems@[k].max == old(self).mems@[k].max
                                            &&& forall|j: int|
                                                0 <= j < module.exports@.len() ==> match (
                                                #[trigger] module.exports@[j].description) {
                                                    MemberDesc::Memory(mt) => {
                                                        let m = final(self).mems@[base
                                                            + spec_mem_exports_before(
                                                            module.exports@,
                                                            j,
                                                        )];
                                                        m.data@ == spec_zero_mem(mt.min as nat)
                                                            && m.max == mt.max
                                                    },
                                                    MemberDesc::Function(_) => true,
                                                }
                                        },
                                    },
                                }
                            })
                        }
                    },
                }
            }),
    {
        let module_addr = ModuleAddr::new(self.modules.len());
        let mut funcs: Vec<FuncAddr> = Vec::new();
        let mut mems: Vec<MemAddr> = Vec::new();

        match self.resolve_imports(&module, &mut funcs, &mut mems) {
            Ok(()) => {},
            Err(e) => {
                return Err(e);
            },
        }
        proof {
            lemma_resolve_imports_in_range(
                self.modules@,
                module.imports@,
                self.funcs@.len() as int,
                self.mems@.len() as int,
            );
            assert(funcs@ =~= Seq::<FuncAddr>::empty() + funcs@);
            assert(mems@ =~= Seq::<MemAddr>::empty() + mems@);
        }
        let ghost ifuncs = funcs@;
        let ghost imems = mems@;

        match self.instantiate_funcs(module_addr, &module, &mut funcs) {
            Ok(()) => {},
            Err(e) => {
                proof {
                    lemma_wf_in_monotone(
                        self.modules@,
                        old(self).funcs@.len() as int,
                        old(self).mems@.len() as int,
                        self.funcs@.len() as int,
                        self.mems@.len() as int,
                    );
                }
                return Err(e);
            },
        }
        proof {
            assert(funcs@ =~= ifuncs + spec_fresh_func_addrs(
                old(self).funcs@.len() as int,
                module.funcs@.len(),
            ));
        }

        match self.instantiate_data(&module, &mems) {
            Ok(()) => {},
            Err(e) => {
                proof {
                    lemma_wf_in_monotone(
                        self.modules@,
                        old(self).funcs@.len() as int,
                        old(self).mems@.len() as int,
                        self.funcs@.len() as int,
                        self.mems@.len() as int,
                    );
                }
                return Err(e);
            },
        }

        let exports = match self.export_module(&funcs, &module.exports) {
            Ok(es) => es,
            Err(e) => {
                proof {
                    lemma_wf_in_monotone(
                        self.modules@,
                        old(self).funcs@.len() as int,
                        old(self).mems@.len() as int,
                        self.funcs@.len() as int,
                        self.mems@.len() as int,
                    );
                }
                return Err(e);
            },
        };

        self.modules.push(
            ModuleInst::new(module.name, funcs, mems, exports, module.names),
        );
        proof {
            let nf = self.funcs@.len() as int;
            let nm = self.mems@.len() as int;
            assert forall|i: int| 0 <= i < self.modules@.len() implies (
            #[trigger] self.modules@[i]).wf_in(nf, nm) by {
                if i < old(self).modules@.len() {
                    assert(old(self).modules@[i].wf_in(
                        old(self).funcs@.len() as int,
                        old(self).mems@.len() as int,
                    ));
                } else {
                    let inst = self.modules@[i];
                    assert forall|j: int| 0 <= j < inst.funcs@.len() implies (
                    #[trigger] inst.funcs@[j]).0 < nf by {
                        if j < ifuncs.len() {
                            assert(inst.funcs@[j] == ifuncs[j]);
                        }
                    }
                    assert forall|j: int| 0 <= j < inst.mems@.len() implies (
                    #[trigger] inst.mems@[j]).0 < nm by {}
                    assert forall|j: int|
                        0 <= j < inst.exports@.len() implies match (
                    #[trigger] inst.exports@[j]).value {
                        ExternVal::Func(a) => a.0 < nf,
                        ExternVal::Mem(a) => a.0 < nm,
                    } by {
                        lemma_all_valid_exports(inst.funcs@, module.exports@, 0, j);
                        lemma_mem_exports_before_mono(module.exports@, 0, j);
                        lemma_mem_exports_before_mono(
                            module.exports@,
                            j,
                            module.exports@.len() as int,
                        );
                        match module.exports@[j].description {
                            MemberDesc::Function(idx) => {
                                if (idx as int) < ifuncs.len() {
                                    assert(inst.funcs@[idx as int] == ifuncs[idx as int]);
                                }
                            },
                            MemberDesc::Memory(_) => {},
                        }
                    }
                }
            }
        }
        Ok(module_addr)
    }
}

} // verus!
