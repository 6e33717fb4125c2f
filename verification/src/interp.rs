//! The execution engine: a call stack of frames, each with its own operand
//! stack and locals, and a thread that invokes functions and dispatches
//! decoded instructions against it.

use vstd::prelude::*;

use crate::hosting::HostDispatch;
use crate::module::{FuncType, Instruction};
use crate::runtime::{FuncAddr, FuncImpl, Host, ModuleAddr};
use crate::value::{TrapCause, ValType, Value};

verus! {

/// A captured execution failure: its cause and, when the engine raised it, a
/// snapshot of the frame locations at the moment of failure, innermost first.
#[derive(Clone, PartialEq, Debug)]
pub struct Trap {
    pub cause: TrapCause,
    pub trace: Option<StackTrace>,
}

impl Trap {
    pub fn new(cause: TrapCause, trace: Option<StackTrace>) -> (r: Trap)
        ensures
            r.cause == cause,
            r.trace == trace,
    {
        Trap { cause, trace }
    }

    pub fn cause(&self) -> (r: &TrapCause)
        ensures
            r == &self.cause,
    {
        &self.cause
    }

    pub fn trace(&self) -> (r: &Option<StackTrace>)
        ensures
            r == &self.trace,
    {
        &self.trace
    }
}

/// A value snapshot of frame locations, innermost (most recently entered)
/// first. Later stack mutation does not affect it.
#[derive(Clone, PartialEq, Debug)]
pub struct StackTrace(pub Vec<StackFrame>);

impl StackTrace {
    pub fn new(frames: Vec<StackFrame>) -> (r: StackTrace)
        ensures
            r.0 == frames,
    {
        StackTrace(frames)
    }

    pub fn frames(&self) -> (r: &Vec<StackFrame>)
        ensures
            r == &self.0,
    {
        &self.0
    }
}

/// A source location: the module an instruction sequence belongs to and,
/// when it is a function body rather than a bare expression, the function.
#[derive(Clone, Copy, PartialEq, Eq, Structural, Debug)]
pub struct StackFrame {
    pub module: ModuleAddr,
    pub func: Option<FuncAddr>,
}

impl StackFrame {
    pub fn new(module: ModuleAddr, func: Option<FuncAddr>) -> (r: StackFrame)
        ensures
            r.module == module,
            r.func == func,
    {
        StackFrame { module, func }
    }

    pub fn module(&self) -> (r: ModuleAddr)
        ensures
            r == self.module,
    {
        self.module
    }

    pub fn func(&self) -> (r: Option<FuncAddr>)
        ensures
            r == self.func,
    {
        self.func
    }
}

/// The operand stack after pushing `v`: a `Nil` is never materialized, it is
/// dropped instead.
pub open spec fn spec_push_value(values: Seq<Value>, v: Value) -> Seq<Value> {
    if v == Value::Nil {
        values
    } else {
        values.push(v)
    }
}

/// The context one function invocation executes under: its own operand
/// stack, the locals in scope, and the frame location it belongs to.
#[derive(Clone, PartialEq, Debug)]
pub struct ExecutionContext {
    pub values: Vec<Value>,
    pub locals: Vec<Value>,
    pub frame: StackFrame,
}

impl ExecutionContext {
    /// The operand-stack invariant: a `Nil` value is never materialized on
    /// an operand stack. Every operation of this module preserves it; it
    /// can only be broken by writing the field directly.
    pub open spec fn nil_free(&self) -> bool {
        forall|i: int| 0 <= i < self.values@.len() ==> (#[trigger] self.values@[i]) != Value::Nil
    }

    /// A fresh context with an empty operand stack and the given pre-seeded
    /// locals.
    pub fn new(frame: StackFrame, locals: Vec<Value>) -> (r: ExecutionContext)
        ensures
            r.values@ == Seq::<Value>::empty(),
            r.locals == locals,
            r.frame == frame,
            r.nil_free(),
    {
        ExecutionContext { values: Vec::new(), locals, frame }
    }

    pub fn frame(&self) -> (r: &StackFrame)
        ensures
            r == &self.frame,
    {
        &self.frame
    }

    /// Pushes a value onto the operand stack; a `Nil` is dropped instead.
    pub fn push(&mut self, value: Value)
        ensures
            final(self).values@ == spec_push_value(old(self).values@, value),
            final(self).locals == old(self).locals,
            final(self).frame == old(self).frame,
            old(self).nil_free() ==> final(self).nil_free(),
    {
        if !(value == Value::Nil) {
            self.values.push(value);
        }
    }

    /// Pops the most recently pushed value, if any. On a stack that keeps
    /// the operand invariant the result is never `Some(Nil)`: a `Nil` is
    /// never pushed, so none can come back off.
    pub fn pop(&mut self) -> (r: Option<Value>)
        ensures
            final(self).locals == old(self).locals,
            final(self).frame == old(self).frame,
            old(self).nil_free() ==> final(self).nil_free() && (r matches Some(v) ==> v
                != Value::Nil),
            match r {
                Some(v) => old(self).values@.len() > 0 && v == old(self).values@.last() && final(self).values@ == old(self).values@.drop_last(),
                None => old(self).values@.len() == 0 && final(self).values@ == old(self).values@,
            },
    {
        self.values.pop()
    }

    /// Whether the operand stack holds no values.
    pub fn is_empty(&self) -> (r: bool)
        ensures
            r == (self.values@.len() == 0),
    {
        self.values.len() == 0
    }

    /// The value of the local with the given index, if it exists.
    pub fn local(&self, idx: usize) -> (r: Option<Value>)
        ensures
            match r {
                Some(v) => idx < self.locals@.len() && v == self.locals@[idx as int],
                None => idx >= self.locals@.len(),
            },
    {
        if idx < self.locals.len() {
            Some(self.locals[idx])
        } else {
            None
        }
    }
}

/// The frame locations of a call stack, innermost first.
pub open spec fn spec_trace(ctxs: Seq<ExecutionContext>) -> Seq<StackFrame> {
    Seq::new(ctxs.len(), |i: int| ctxs[ctxs.len() - 1 - i].frame)
}

/// The call stack: an ordered sequence of execution contexts. While a thread
/// is active it is never empty; the bottom frame belongs to the call that
/// owns the thread and may not be popped by instruction execution.
pub struct ExecutionStack(pub Vec<ExecutionContext>);

impl ExecutionStack {
    /// The number of live frames.
    pub open spec fn depth(&self) -> nat {
        self.0@.len()
    }

    /// The live contexts, bottom first.
    pub open spec fn ctxs(&self) -> Seq<ExecutionContext> {
        self.0@
    }

    /// The innermost context.
    pub open spec fn top(&self) -> ExecutionContext {
        self.0@.last()
    }

    pub fn new() -> (r: ExecutionStack)
        ensures
            r.depth() == 0,
    {
        ExecutionStack(Vec::new())
    }

    /// The active context. The stack must be non-empty.
    pub fn current(&self) -> (r: &ExecutionContext)
        requires
            self.depth() >= 1,
        ensures
            r == &self.0@.last(),
    {
        let n = self.0.len();
        &self.0[n - 1]
    }

    /// The active context, mutably. The stack must be non-empty.
    pub fn current_mut(&mut self) -> (r: &mut ExecutionContext)
        requires
            old(self).depth() >= 1,
        ensures
            *r == old(self).0@.last(),
            final(self).0@ == old(self).0@.update(old(self).0@.len() - 1, *final(r)),
    {
        let n = self.0.len();
        &mut self.0[n - 1]
    }

    /// Pushes a new context whose operand stack starts empty and whose
    /// locals are pre-seeded with `locals`.
    pub fn enter(&mut self, module: ModuleAddr, func: Option<FuncAddr>, locals: Vec<Value>)
        ensures
            final(self).depth() == old(self).depth() + 1,
            final(self).ctxs().drop_last() == old(self).ctxs(),
            final(self).top().values@ == Seq::<Value>::empty(),
            final(self).top().locals == locals,
            final(self).top().frame == (StackFrame { module, func }),
    {
        self.0.push(ExecutionContext::new(StackFrame::new(module, func), locals));
        proof {
            assert(self.0@.drop_last() =~= old(self).0@);
        }
    }

    /// Pops the current context and discards any residual operand values.
    /// The bottom frame belongs to the call that owns the thread, so at
    /// least two frames must be live.
    pub fn exit(&mut self)
        requires
            old(self).depth() >= 2,
        ensures
            final(self).ctxs() == old(self).ctxs().drop_last(),
    {
        self.0.pop();
        proof {
            assert(self.0@ =~= old(self).0@.drop_last());
        }
    }

    /// Captures the current frame locations, innermost first. The snapshot
    /// is a value copy, unaffected by later stack mutation.
    pub fn trace(&self) -> (r: StackTrace)
        ensures
            r.0@ == spec_trace(self.ctxs()),
    {
        let mut frames: Vec<StackFrame> = Vec::new();
        let n = self.0.len();
        let mut i = n;
        while i > 0
            invariant
                i <= n,
                n == self.0@.len(),
                frames@.len() == n - i,
                forall|k: int| 0 <= k < n - i ==> frames@[k] == self.0@[n - 1 - k].frame,
            decreases i,
        {
            i = i - 1;
            frames.push(self.0[i].frame);
        }
        proof {
            assert(frames@ =~= spec_trace(self.ctxs()));
        }
        StackTrace(frames)
    }
}

/// The outcome of popping one operand per entry of `decl`, most recently
/// pushed first, each checked against its declared type: the remaining
/// operand stack and the popped values in declared order.
pub open spec fn spec_pop_args(values: Seq<Value>, decl: Seq<ValType>) -> Result<
    (Seq<Value>, Seq<Value>),
    TrapCause,
>
    decreases decl.len(),
{
    if decl.len() == 0 {
        Ok((values, Seq::empty()))
    } else if values.len() == 0 {
        Err(TrapCause::StackUnderflow)
    } else if values.last().spec_typ() != decl[0] {
        Err(TrapCause::TypeMismatch { expected: decl[0], actual: values.last().spec_typ() })
    } else {
        match spec_pop_args(values.drop_last(), decl.drop_first()) {
            Ok((rem, rest)) => Ok((rem, seq![values.last()] + rest)),
            Err(c) => Err(c),
        }
    }
}

/// The zero-initialized value of a declared local type.
pub open spec fn spec_zero_value(t: ValType) -> Value {
    match t {
        ValType::Nil => Value::Nil,
        ValType::I32 => Value::I32(0),
        ValType::I64 => Value::I64(0),
        ValType::F32 => Value::F32(0),
        ValType::F64 => Value::F64(0),
    }
}

/// Whether an instruction sequence consists of constants only.
pub open spec fn all_const(code: Seq<Instruction>) -> bool {
    forall|i: int| 0 <= i < code.len() ==> (#[trigger] code[i]) matches Instruction::Const(_)
}

/// The operand stack after executing a sequence of constant instructions.
pub open spec fn spec_run_consts(values: Seq<Value>, code: Seq<Instruction>) -> Seq<Value>
    decreases code.len(),
{
    if code.len() == 0 {
        values
    } else {
        match code[0] {
            Instruction::Const(v) => spec_run_consts(spec_push_value(values, v), code.drop_first()),
            Instruction::Call(_) => spec_run_consts(values, code.drop_first()),
        }
    }
}

/// The outcome of finishing an invocation whose body left `values` on the
/// callee operand stack: one operand per declared result is popped with type
/// checking, and the stack must then be exactly empty.
pub open spec fn spec_finish_invoke(values: Seq<Value>, results: Seq<ValType>) -> Result<
    Seq<Value>,
    TrapCause,
> {
    match spec_pop_args(values, results) {
        Ok((rem, vals)) => if rem.len() != 0 {
            Err(TrapCause::StackNotEmpty)
        } else {
            Ok(vals)
        },
        Err(c) => Err(c),
    }
}

/// The outcome of invoking a local function with a constants-only body on an
/// empty callee operand stack.
pub open spec fn spec_const_body_outcome(body: Seq<Instruction>, results: Seq<ValType>) -> Result<
    Seq<Value>,
    TrapCause,
> {
    spec_finish_invoke(spec_run_consts(Seq::empty(), body), results)
}

/// The outcome of evaluating a constants-only expression in a fresh frame:
/// exactly one residual value is owed, an empty result underflows and more
/// than one value is a leftover.
pub open spec fn spec_eval_consts(expr: Seq<Instruction>) -> Result<Value, TrapCause> {
    let pc = spec_run_consts(Seq::empty(), expr);
    if pc.len() == 0 {
        Err(TrapCause::StackUnderflow)
    } else if pc.len() > 1 {
        Err(TrapCause::StackNotEmpty)
    } else {
        Ok(pc[0])
    }
}

/// Whether every argument expression consists of constants only.
pub open spec fn all_const_exprs(exprs: Seq<Vec<Instruction>>) -> bool {
    forall|i: int| 0 <= i < exprs.len() ==> all_const((#[trigger] exprs[i])@)
}

/// The operand stack an intermediate frame holds after evaluating
/// constants-only argument expressions in reverse declaration order: the
/// last-declared argument lands deepest and the first-declared argument's
/// value ends on top, ready to be popped first.
pub open spec fn spec_args_stack(exprs: Seq<Vec<Instruction>>) -> Seq<Value>
    decreases exprs.len(),
{
    if exprs.len() == 0 {
        Seq::empty()
    } else {
        spec_run_consts(spec_args_stack(exprs.drop_first()), exprs[0]@)
    }
}

/// The default maximum call depth of a thread.
pub const DEFAULT_MAX_DEPTH: usize = 256;

/// A single thread of execution: it owns its call stack and drives
/// invocation against a shared host registry. Nested calls are bounded by an
/// explicit, configurable maximum call depth rather than by the native stack
/// alone.
pub struct Thread {
    pub stack: ExecutionStack,
    pub max_depth: usize,
}

impl Thread {
    pub fn new() -> (r: Thread)
        ensures
            r.stack.depth() == 0,
            r.max_depth == DEFAULT_MAX_DEPTH,
    {
        Thread { stack: ExecutionStack::new(), max_depth: DEFAULT_MAX_DEPTH }
    }

    /// A thread whose nested call depth is bounded by `max_depth` instead of
    /// the default.
    pub fn with_max_depth(max_depth: usize) -> (r: Thread)
        ensures
            r.stack.depth() == 0,
            r.max_depth == max_depth,
    {
        Thread { stack: ExecutionStack::new(), max_depth }
    }

    pub fn stack(&self) -> (r: &ExecutionStack)
        ensures
            r == &self.stack,
    {
        &self.stack
    }

    pub fn stack_mut(&mut self) -> (r: &mut ExecutionStack)
        ensures
            *r == old(self).stack,
            final(self).stack == *final(r),
            final(self).max_depth == old(self).max_depth,
    {
        &mut self.stack
    }

    /// Builds a trap carrying `cause` and a snapshot of the current frame
    /// locations, innermost first.
    pub fn throw(&self, cause: TrapCause) -> (r: Trap)
        ensures
            r.cause == cause,
            r.trace matches Some(t) && t.0@ == spec_trace(self.stack.ctxs()),
    {
        Trap::new(cause, Some(self.stack.trace()))
    }

    /// Pops a value off the current frame's operand stack, trapping with a
    /// stack underflow when there is none.
    pub fn pop(&mut self) -> (r: Result<Value, Trap>)
        requires
            old(self).stack.depth() >= 1,
        ensures
            final(self).max_depth == old(self).max_depth,
            final(self).stack.depth() == old(self).stack.depth(),
            forall|i: int|
                0 <= i < old(self).stack.depth() - 1 ==> final(self).stack.ctxs()[i] == old(self).stack.ctxs()[i],
            final(self).stack.top().locals == old(self).stack.top().locals,
            final(self).stack.top().frame == old(self).stack.top().frame,
            old(self).stack.top().nil_free() ==> final(self).stack.top().nil_free() && (r matches
                Ok(v) && v != Value::Nil || r is Err),
            match r {
                Ok(v) => old(self).stack.top().values@.len() > 0 && v == old(self).stack.top().values@.last() && final(self).stack.top().values@ == old(self).stack.top().values@.drop_last(),
                Err(t) => old(self).stack.top().values@.len() == 0 && final(self).stack.top().values@ == old(self).stack.top().values@ && t.cause == TrapCause::StackUnderflow,
            },
    {
        let popped = self.stack.current_mut().pop();
        match popped {
            Some(v) => Ok(v),
            None => Err(self.throw(TrapCause::StackUnderflow)),
        }
    }

    /// Pushes a value onto the current frame's operand stack; a `Nil` is
    /// dropped.
    pub fn push(&mut self, v: Value)
        requires
            old(self).stack.depth() >= 1,
        ensures
            final(self).max_depth == old(self).max_depth,
            final(self).stack.depth() == old(self).stack.depth(),
            forall|i: int|
                0 <= i < old(self).stack.depth() - 1 ==> final(self).stack.ctxs()[i] == old(self).stack.ctxs()[i],
            final(self).stack.top().locals == old(self).stack.top().locals,
            final(self).stack.top().frame == old(self).stack.top().frame,
            final(self).stack.top().values@ == spec_push_value(old(self).stack.top().values@, v),
            old(self).stack.top().nil_free() ==> final(self).stack.top().nil_free(),
    {
        self.stack.current_mut().push(v);
    }

    /// Pops one operand per entry of `decl`, most recently pushed first,
    /// checking each against its declared type; returns the popped values in
    /// declared order.
    fn pop_checked(&mut self, decl: &Vec<ValType>) -> (r: Result<Vec<Value>, TrapCause>)
        requires
            old(self).stack.depth() >= 1,
        ensures
            final(self).max_depth == old(self).max_depth,
            final(self).stack.depth() == old(self).stack.depth(),
            forall|i: int|
                0 <= i < old(self).stack.depth() - 1 ==> final(self).stack.ctxs()[i] == old(self).stack.ctxs()[i],
            final(self).stack.top().locals == old(self).stack.top().locals,
            final(self).stack.top().frame == old(self).stack.top().frame,
            match spec_pop_args(old(self).stack.top().values@, decl@) {
                Ok((rem, args)) => r matches Ok(a) && a@ == args && final(self).stack.top().values@
                    == rem,
                Err(c) => r matches Err(c2) && c2 == c,
            },
    {
        let r = self.pop_checked_from(decl, 0);
        proof {
            assert(decl@.skip(0) =~= decl@);
        }
        r
    }

    /// Pops one operand per entry of `decl` from index `i` on, most
    /// recently pushed first, checking each against its declared type.
    fn pop_checked_from(&mut self, decl: &Vec<ValType>, i: usize) -> (r: Result<
        Vec<Value>,
        TrapCause,
    >)
        requires
            old(self).stack.depth() >= 1,
            i <= decl@.len(),
        ensures
            final(self).max_depth == old(self).max_depth,
            final(self).stack.depth() == old(self).stack.depth(),
            forall|k: int|
                0 <= k < old(self).stack.depth() - 1 ==> final(self).stack.ctxs()[k] == old(self).stack.ctxs()[k],
            final(self).stack.top().locals == old(self).stack.top().locals,
            final(self).stack.top().frame == old(self).stack.top().frame,
            match spec_pop_args(old(self).stack.top().values@, decl@.skip(i as int)) {
                Ok((rem, args)) => r matches Ok(a) && a@ == args && final(self).stack.top().values@
                    == rem,
                Err(c) => r matches Err(c2) && c2 == c,
            },
        decreases decl@.len() - i,
    {
        if i == decl.len() {
            proof {
                assert(decl@.skip(i as int) =~= Seq::<ValType>::empty());
            }
            return Ok(Vec::new());
        }
        proof {
            assert(decl@.skip(i as int)[0] == decl@[i as int]);
            assert(decl@.skip(i as int).drop_first() =~= decl@.skip(i + 1));
        }
        let popped = self.stack.current_mut().pop();
        match popped {
            None => Err(TrapCause::StackUnderflow),
            Some(v) => {
                let vt = v.typ();
                let expected = decl[i];
                if !(vt == expected) {
                    return Err(TrapCause::TypeMismatch { expected, actual: vt });
                }
                match self.pop_checked_from(decl, i + 1) {
                    Ok(mut rest) => {
                        let ghost rest0 = rest@;
                        rest.insert(0, v);
                        proof {
                            assert(rest@ =~= seq![v] + rest0);
                        }
                        Ok(rest)
                    },
                    Err(c) => Err(c),
                }
            },
        }
    }

    /// Evaluates an expression in the context of `module`: enters a fresh
    /// frame, runs the instructions, and requires exactly one residual value
    /// on an otherwise empty operand stack. The frame is exited on every
    /// path, so the stack depth is preserved on success and on trap.
    pub fn eval<D: HostDispatch>(
        &mut self,
        host: &mut Host,
        dispatch: &mut D,
        module: ModuleAddr,
        expr: &Vec<Instruction>,
    ) -> (r: Result<Value, Trap>)
        requires
            old(self).stack.depth() >= 1,
        ensures
            final(self).max_depth == old(self).max_depth,
            final(self).stack.depth() == old(self).stack.depth(),
            forall|i: int|
                0 <= i < old(self).stack.depth() ==> final(self).stack.ctxs()[i] == old(self).stack.ctxs()[i],
            final(host).modules@.len() >= old(host).modules@.len(),
            final(host).funcs@.len() >= old(host).funcs@.len(),
            final(host).mems@.len() >= old(host).mems@.len(),
            all_const(expr@) ==> match spec_eval_consts(expr@) {
                Ok(v) => r matches Ok(rv) && rv == v,
                Err(c) => r matches Err(t) && t.cause == c,
            },
    {
        self.stack.enter(module, None, Vec::new());
        let fuel = self.max_depth;
        let val = match self.run_inner(host, dispatch, expr, fuel) {
            Ok(()) => match self.pop() {
                Ok(v) => v,
                Err(e) => {
                    self.stack.exit();
                    proof {
                        assert(self.stack.ctxs() =~= old(self).stack.ctxs());
                    }
                    return Err(e);
                },
            },
            Err(e) => {
                self.stack.exit();
                proof {
                    assert(self.stack.ctxs() =~= old(self).stack.ctxs());
                }
                return Err(e);
            },
        };
        if !self.stack.current().is_empty() {
            let t = self.throw(TrapCause::StackNotEmpty);
            self.stack.exit();
            proof {
                assert(self.stack.ctxs() =~= old(self).stack.ctxs());
            }
            return Err(t);
        }
        self.stack.exit();
        proof {
            assert(self.stack.ctxs() =~= old(self).stack.ctxs());
        }
        Ok(val)
    }

    /// Calls `func`, evaluating each argument expression in reverse
    /// declaration order in an intermediate frame so that the first-declared
    /// argument ends on top of the operand stack, then invokes the function.
    /// The intermediate frame always exits before returning, so the stack
    /// depth is preserved on success and on trap.
    pub fn call<D: HostDispatch>(
        &mut self,
        host: &mut Host,
        dispatch: &mut D,
        module: ModuleAddr,
        func: FuncAddr,
        exprs: &Vec<Vec<Instruction>>,
    ) -> (r: Result<Vec<Value>, Trap>)
        requires
            old(self).stack.depth() >= 1,
            func.0 < old(host).funcs@.len(),
        ensures
            final(self).max_depth == old(self).max_depth,
            final(self).stack.depth() == old(self).stack.depth(),
            forall|i: int|
                0 <= i < old(self).stack.depth() ==> final(self).stack.ctxs()[i] == old(self).stack.ctxs()[i],
            final(host).modules@.len() >= old(host).modules@.len(),
            final(host).funcs@.len() >= old(host).funcs@.len(),
            final(host).mems@.len() >= old(host).mems@.len(),
            ({
                let ft = old(host).funcs@[func.0 as int].typ;
                all_const_exprs(exprs@) ==> match spec_pop_args(
                    spec_args_stack(exprs@),
                    ft.params@,
                ) {
                    Err(c) => r matches Err(t) && t.cause == c,
                    Ok((rem, args)) => match old(host).funcs@[func.0 as int].imp {
                        FuncImpl::Local(code, _) => {
                            &&& (r matches Ok(vals) ==> vals@.len() == ft.results@.len() && (
                            forall|j: int|
                                0 <= j < vals@.len() ==> (#[trigger] vals@[j]).spec_typ()
                                    == ft.results@[j]))
                            &&& all_const(code.body@) ==> match spec_const_body_outcome(
                                code.body@,
                                ft.results@,
                            ) {
                                Ok(vals) => r matches Ok(rv) && rv@ == vals,
                                Err(c) => r matches Err(t) && t.cause == c,
                            }
                        },
                        FuncImpl::External(_) => true,
                    },
                }
            }),
    {
        self.stack.enter(module, None, Vec::new());
        let n = exprs.len();
        proof {
            assert(exprs@.skip(n as int) =~= Seq::<Vec<Instruction>>::empty());
        }
        let mut i = n;
        while i > 0
            invariant
                i <= n,
                n == exprs@.len(),
                old(self).stack.depth() >= 1,
                self.max_depth == old(self).max_depth,
                self.stack.depth() == old(self).stack.depth() + 1,
                forall|k: int|
                    0 <= k < old(self).stack.depth() ==> self.stack.ctxs()[k] == old(self).stack.ctxs()[k],
                host.modules@.len() >= old(host).modules@.len(),
                host.funcs@.len() >= old(host).funcs@.len(),
                host.mems@.len() >= old(host).mems@.len(),
                all_const_exprs(exprs@) ==> self.stack.top().values@ == spec_args_stack(
                    exprs@.skip(i as int),
                ) && *host == *old(host),
            decreases i,
        {
            i = i - 1;
            proof {
                if all_const_exprs(exprs@) {
                    assert(all_const(exprs@[i as int]@));
                    assert(exprs@.skip(i as int)[0] == exprs@[i as int]);
                    assert(exprs@.skip(i as int).drop_first() =~= exprs@.skip(i + 1));
                }
            }
            let fuel = self.max_depth;
            match self.run_inner(host, dispatch, &exprs[i], fuel) {
                Ok(()) => {},
                Err(e) => {
                    self.stack.exit();
                    proof {
                        assert(self.stack.ctxs() =~= old(self).stack.ctxs());
                    }
                    return Err(e);
                },
            }
        }
        proof {
            if all_const_exprs(exprs@) {
                assert(exprs@.skip(0) =~= exprs@);
            }
        }
        let fuel = self.max_depth;
        let res = self.invoke_inner(host, dispatch, func, fuel);
        self.stack.exit();
        proof {
            assert(self.stack.ctxs() =~= old(self).stack.ctxs());
        }
        res
    }

    /// Invokes `func` in the context of this thread, driving the call
    /// contract: arguments are popped off the current frame, a local
    /// function runs its body in a fresh frame that is exited on every path,
    /// and a host-supplied function is delegated through `dispatch`. The
    /// stack depth is preserved on success and on trap.
    pub fn invoke<D: HostDispatch>(
        &mut self,
        host: &mut Host,
        dispatch: &mut D,
        func: FuncAddr,
    ) -> (r: Result<Vec<Value>, Trap>)
        requires
            old(self).stack.depth() >= 1,
            func.0 < old(host).funcs@.len(),
        ensures
            final(self).max_depth == old(self).max_depth,
            final(self).stack.depth() == old(self).stack.depth(),
            forall|i: int|
                0 <= i < old(self).stack.depth() - 1 ==> final(self).stack.ctxs()[i] == old(self).stack.ctxs()[i],
            final(self).stack.top().locals == old(self).stack.top().locals,
            final(self).stack.top().frame == old(self).stack.top().frame,
            final(host).modules@.len() >= old(host).modules@.len(),
            final(host).funcs@.len() >= old(host).funcs@.len(),
            final(host).mems@.len() >= old(host).mems@.len(),
            ({
                let ft = old(host).funcs@[func.0 as int].typ;
                match spec_pop_args(old(self).stack.top().values@, ft.params@) {
                    Err(c) => r matches Err(t) && t.cause == c && final(self).stack.top().locals
                        == old(self).stack.top().locals,
                    Ok((rem, args)) => final(self).stack.top().values@ == rem && (match old(
                        host,
                    ).funcs@[func.0 as int].imp {
                        FuncImpl::Local(code, _) => {
                            &&& (r matches Ok(vals) ==> vals@.len() == ft.results@.len() && (forall|
                                j: int,
                            |
                                0 <= j < vals@.len() ==> (#[trigger] vals@[j]).spec_typ()
                                    == ft.results@[j]))
                            &&& all_const(code.body@) ==> match spec_const_body_outcome(
                                code.body@,
                                ft.results@,
                            ) {
                                Ok(vals) => r matches Ok(rv) && rv@ == vals,
                                Err(c) => r matches Err(t) && t.cause == c,
                            }
                        },
                        FuncImpl::External(_) => true,
                    }),
                }
            }),
    {
        let fuel = self.max_depth;
        self.invoke_inner(host, dispatch, func, fuel)
    }

    /// Runs a decoded instruction sequence against the current frame,
    /// stopping at the first trap.
    pub fn run<D: HostDispatch>(
        &mut self,
        host: &mut Host,
        dispatch: &mut D,
        code: &Vec<Instruction>,
    ) -> (r: Result<(), Trap>)
        requires
            old(self).stack.depth() >= 1,
        ensures
            final(self).max_depth == old(self).max_depth,
            final(self).stack.depth() == old(self).stack.depth(),
            forall|i: int|
                0 <= i < old(self).stack.depth() - 1 ==> final(self).stack.ctxs()[i] == old(self).stack.ctxs()[i],
            final(self).stack.top().locals == old(self).stack.top().locals,
            final(self).stack.top().frame == old(self).stack.top().frame,
            final(host).modules@.len() >= old(host).modules@.len(),
            final(host).funcs@.len() >= old(host).funcs@.len(),
            final(host).mems@.len() >= old(host).mems@.len(),
            all_const(code@) ==> r is Ok && final(self).stack.top().values@ == spec_run_consts(
                old(self).stack.top().values@,
                code@,
            ) && *final(host) == *old(host),
    {
        let fuel = self.max_depth;
        self.run_inner(host, dispatch, code, fuel)
    }

    fn run_inner<D: HostDispatch>(
        &mut self,
        host: &mut Host,
        dispatch: &mut D,
        code: &Vec<Instruction>,
        fuel: usize,
    ) -> (r: Result<(), Trap>)
        requires
            old(self).stack.depth() >= 1,
        ensures
            final(self).max_depth == old(self).max_depth,
            final(self).stack.depth() == old(self).stack.depth(),
            forall|i: int|
                0 <= i < old(self).stack.depth() - 1 ==> final(self).stack.ctxs()[i] == old(self).stack.ctxs()[i],
            final(self).stack.top().locals == old(self).stack.top().locals,
            final(self).stack.top().frame == old(self).stack.top().frame,
            final(host).modules@.len() >= old(host).modules@.len(),
            final(host).funcs@.len() >= old(host).funcs@.len(),
            final(host).mems@.len() >= old(host).mems@.len(),
            all_const(code@) ==> r is Ok && final(self).stack.top().values@ == spec_run_consts(
                old(self).stack.top().values@,
                code@,
            ) && *final(host) == *old(host),
        decreases fuel, 1int, 0int,
    {
        proof {
            assert(code@.skip(0) =~= code@);
        }
        let n = code.len();
        for i in 0..n
            invariant
                n == code@.len(),
                self.max_depth == old(self).max_depth,
                self.stack.depth() == old(self).stack.depth(),
                self.stack.depth() >= 1,
                forall|k: int|
                    0 <= k < old(self).stack.depth() - 1 ==> self.stack.ctxs()[k] == old(self).stack.ctxs()[k],
                self.stack.top().locals == old(self).stack.top().locals,
                self.stack.top().frame == old(self).stack.top().frame,
                host.modules@.len() >= old(host).modules@.len(),
                host.funcs@.len() >= old(host).funcs@.len(),
                host.mems@.len() >= old(host).mems@.len(),
                all_const(code@) ==> spec_run_consts(old(self).stack.top().values@, code@)
                    == spec_run_consts(self.stack.top().values@, code@.skip(i as int)) && *host
                    == *old(host),
            decreases fuel, 1int, n - i,
        {
            proof {
                if all_const(code@) {
                    assert(code@.skip(i as int)[0] == code@[i as int]);
                    assert(code@.skip(i as int).drop_first() =~= code@.skip(i + 1));
                }
            }
            match self.execute(host, dispatch, &code[i], fuel) {
                Ok(()) => {},
                Err(e) => {
                    return Err(e);
                },
            }
        }
        proof {
            if all_const(code@) {
                assert(code@.skip(n as int) =~= Seq::<Instruction>::empty());
            }
        }
        Ok(())
    }

    /// Executes one instruction against the current frame. A call
    /// instruction resolves its callee in the current frame's module
    /// instance and recursively drives the invoke contract, spending one
    /// unit of the remaining call-depth budget.
    fn execute<D: HostDispatch>(
        &mut self,
        host: &mut Host,
        dispatch: &mut D,
        inst: &Instruction,
        fuel: usize,
    ) -> (r: Result<(), Trap>)
        requires
            old(self).stack.depth() >= 1,
        ensures
            final(self).max_depth == old(self).max_depth,
            final(self).stack.depth() == old(self).stack.depth(),
            forall|i: int|
                0 <= i < old(self).stack.depth() - 1 ==> final(self).stack.ctxs()[i] == old(self).stack.ctxs()[i],
            final(self).stack.top().locals == old(self).stack.top().locals,
            final(self).stack.top().frame == old(self).stack.top().frame,
            final(host).modules@.len() >= old(host).modules@.len(),
            final(host).funcs@.len() >= old(host).funcs@.len(),
            final(host).mems@.len() >= old(host).mems@.len(),
            inst matches Instruction::Const(v) ==> r is Ok && final(self).stack.top().values@
                == spec_push_value(old(self).stack.top().values@, *v) && *final(host) == *old(
                host,
            ),
        decreases fuel, 0int, 0int,
    {
        match inst {
            Instruction::Const(v) => {
                self.push(*v);
                Ok(())
            },
            Instruction::Call(idx) => {
                let maddr = self.stack.current().frame.module;
                if maddr.0 >= host.modules.len() {
                    return Err(
                        self.throw(
                            TrapCause::Message(
                                <String as vstd::string::StringExecFns>::from_str("unknown module"),
                            ),
                        ),
                    );
                }
                let minst = host.get_module(maddr);
                if (*idx) as usize >= minst.funcs.len() {
                    return Err(
                        self.throw(
                            TrapCause::Message(
                                <String as vstd::string::StringExecFns>::from_str("unknown function"),
                            ),
                        ),
                    );
                }
                let faddr = minst.funcs[(*idx) as usize];
                if faddr.0 >= host.funcs.len() {
                    return Err(
                        self.throw(
                            TrapCause::Message(
                                <String as vstd::string::StringExecFns>::from_str("unknown function instance"),
                            ),
                        ),
                    );
                }
                if fuel == 0 {
                    return Err(self.throw(TrapCause::CallDepthExceeded));
                }
                match self.invoke_inner(host, dispatch, faddr, fuel - 1) {
                    Ok(vals) => {
                        // Push the results back so that the first-declared
                        // result ends on top, the layout a callee body leaves.
                        let m = vals.len();
                        let mut j = m;
                        while j > 0
                            invariant
                                j <= m,
                                m == vals@.len(),
                                self.max_depth == old(self).max_depth,
                                self.stack.depth() == old(self).stack.depth(),
                                self.stack.depth() >= 1,
                                forall|k: int|
                                    0 <= k < old(self).stack.depth() - 1 ==> self.stack.ctxs()[k]
                                        == old(self).stack.ctxs()[k],
                                self.stack.top().locals == old(self).stack.top().locals,
                                self.stack.top().frame == old(self).stack.top().frame,
                            decreases j,
                        {
                            j = j - 1;
                            self.push(vals[j]);
                        }
                        Ok(())
                    },
                    Err(e) => Err(e),
                }
            },
        }
    }

    fn invoke_inner<D: HostDispatch>(
        &mut self,
        host: &mut Host,
        dispatch: &mut D,
        func: FuncAddr,
        fuel: usize,
    ) -> (r: Result<Vec<Value>, Trap>)
        requires
            old(self).stack.depth() >= 1,
            func.0 < old(host).funcs@.len(),
        ensures
            final(self).max_depth == old(self).max_depth,
            final(self).stack.depth() == old(self).stack.depth(),
            forall|i: int|
                0 <= i < old(self).stack.depth() - 1 ==> final(self).stack.ctxs()[i] == old(self).stack.ctxs()[i],
            final(self).stack.top().locals == old(self).stack.top().locals,
            final(self).stack.top().frame == old(self).stack.top().frame,
            final(host).modules@.len() >= old(host).modules@.len(),
            final(host).funcs@.len() >= old(host).funcs@.len(),
            final(host).mems@.len() >= old(host).mems@.len(),
            ({
                let ft = old(host).funcs@[func.0 as int].typ;
                match spec_pop_args(old(self).stack.top().values@, ft.params@) {
                    Err(c) => r matches Err(t) && t.cause == c && final(self).stack.top().locals
                        == old(self).stack.top().locals,
                    Ok((rem, args)) => final(self).stack.top().values@ == rem && (match old(
                        host,
                    ).funcs@[func.0 as int].imp {
                        FuncImpl::Local(code, _) => {
                            &&& (r matches Ok(vals) ==> vals@.len() == ft.results@.len() && (forall|
                                j: int,
                            |
                                0 <= j < vals@.len() ==> (#[trigger] vals@[j]).spec_typ()
                                    == ft.results@[j]))
                            &&& all_const(code.body@) ==> match spec_const_body_outcome(
                                code.body@,
                                ft.results@,
                            ) {
                                Ok(vals) => r matches Ok(rv) && rv@ == vals,
                                Err(c) => r matches Err(t) && t.cause == c,
                            }
                        },
                        FuncImpl::External(_) => true,
                    }),
                }
            }),
        decreases fuel, 2int, 0int,
    {
        // Copy the declaration out of the registry so that the registry can
        // be handed on mutably.
        let func_inst = host.get_func(func);
        let params = copy_vec(&func_inst.typ.params);
        let results = copy_vec(&func_inst.typ.results);
        let local_code: Option<(Vec<ValType>, Vec<Instruction>, ModuleAddr)> = match &func_inst.imp
         {
            FuncImpl::Local(code, maddr) => Some(
                (copy_vec(&code.locals), copy_vec(&code.body), *maddr),
            ),
            FuncImpl::External(_) => None,
        };
        match local_code {
            None => {
                // A host-supplied native callable: pop and type-check the
                // arguments, then delegate.
                let args = match self.pop_checked(&params) {
                    Ok(a) => a,
                    Err(c) => {
                        return Err(self.throw(c));
                    },
                };
                let ft = FuncType { params, results };
                dispatch.call_external(host, func, &ft, args)
            },
            Some((local_decls, body, maddr)) => {
                // Pop and type-check one argument per declared parameter.
                let mut locals = match self.pop_checked(&params) {
                    Ok(a) => a,
                    Err(c) => {
                        return Err(self.throw(c));
                    },
                };
                // Locals are the parameters followed by zero-initialized
                // declared locals.
                let nd = local_decls.len();
                for li in 0..nd
                    invariant
                        nd == local_decls@.len(),
                        self.stack.depth() == old(self).stack.depth(),
                    decreases nd - li,
                {
                    locals.push(zero_value(local_decls[li]));
                }
                self.stack.enter(maddr, Some(func), locals);
                match self.run_inner(host, dispatch, &body, fuel) {
                    Ok(()) => {},
                    Err(e) => {
                        self.stack.exit();
                        return Err(e);
                    },
                }
                let ghost callee_vals = self.stack.top().values@;
                // Pop one operand per declared result, with type checking.
                let vals = match self.pop_checked(&results) {
                    Ok(v) => v,
                    Err(c) => {
                        let t = self.throw(c);
                        self.stack.exit();
                        return Err(t);
                    },
                };
                // The callee stack must now be exactly empty.
                if !self.stack.current().is_empty() {
                    let t = self.throw(TrapCause::StackNotEmpty);
                    self.stack.exit();
                    return Err(t);
                }
                self.stack.exit();
                proof {
                    lemma_pop_args_types(callee_vals, results@);
                }
                Ok(vals)
            },
        }
    }
}

/// Popping operands against a declaration list yields exactly one value per
/// declared entry, each carrying its declared type, and consumes exactly
/// that many operands.
pub proof fn lemma_pop_args_types(values: Seq<Value>, decl: Seq<ValType>)
    ensures
        spec_pop_args(values, decl) matches Ok((rem, args)) ==> args.len() == decl.len() && rem.len()
            + decl.len() == values.len() && (forall|j: int|
            0 <= j < args.len() ==> (#[trigger] args[j]).spec_typ() == decl[j]),
    decreases decl.len(),
{
    if decl.len() == 0 {
    } else if values.len() == 0 {
    } else if values.last().spec_typ() != decl[0] {
    } else {
        lemma_pop_args_types(values.drop_last(), decl.drop_first());
    }
}

/// The zero-initialized runtime value of a declared local type.
pub fn zero_value(t: ValType) -> (r: Value)
    ensures
        r == spec_zero_value(t),
{
    match t {
        ValType::Nil => Value::Nil,
        ValType::I32 => Value::I32(0),
        ValType::I64 => Value::I64(0),
        ValType::F32 => Value::F32(0),
        ValType::F64 => Value::F64(0),
    }
}

/// An element-for-element copy of a vector of plain copyable values.
pub fn copy_vec<T: Copy>(v: &Vec<T>) -> (r: Vec<T>)
    ensures
        r@ == v@,
{
    let mut out: Vec<T> = Vec::new();
    let n = v.len();
    for i in 0..n
        invariant
            n == v@.len(),
            out@ == v@.take(i as int),
    {
        out.push(v[i]);
        proof {
            assert(v@.take(i + 1) =~= v@.take(i as int).push(v@[i as int]));
        }
    }
    proof {
        assert(v@.take(n as int) =~= v@);
    }
    out
}

} // verus!

