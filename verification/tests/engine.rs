use warthog::hosting::{ExternalFunc, HostDispatch, ModuleBuilder};
use warthog::interp::{Thread, Trap};
use warthog::module::{
    Export, FuncBody, FuncType, Import, Instruction, MemberDesc, MemoryType, Module,
};
use warthog::runtime::{ExternVal, FuncAddr, Host};
use warthog::value::{FromValue, TrapCause, ValType, Value};
use warthog::Error;

/// A dispatcher for guests that declare no host functions.
struct NoHost;

impl HostDispatch for NoHost {
    fn call_external(
        &mut self,
        _host: &mut Host,
        _func: FuncAddr,
        _typ: &FuncType,
        _args: Vec<Value>,
    ) -> Result<Vec<Value>, Trap> {
        Err(Trap::new(
            TrapCause::Message("no host functions registered".to_string()),
            None,
        ))
    }
}

/// A dispatcher that answers every host call with a single constant.
struct ConstantHost(u32);

impl HostDispatch for ConstantHost {
    fn call_external(
        &mut self,
        _host: &mut Host,
        _func: FuncAddr,
        _typ: &FuncType,
        args: Vec<Value>,
    ) -> Result<Vec<Value>, Trap> {
        let _ = args;
        Ok(vec![Value::I32(self.0)])
    }
}

fn empty_module(name: &str) -> Module {
    let mut m = Module::empty();
    m.set_name(name.to_string());
    m
}

fn func_export(name: &str, idx: u32) -> Export {
    Export {
        name: name.to_string(),
        description: MemberDesc::Function(idx),
    }
}

/// A module with one function per given (type, body) pair, each exported
/// under fN.
fn module_with_funcs(name: &str, funcs: Vec<(FuncType, FuncBody)>) -> Module {
    let mut m = empty_module(name);
    for (i, (t, b)) in funcs.into_iter().enumerate() {
        m.types.push(t);
        m.funcs.push(i as u32);
        m.code.push(b);
        m.exports.push(func_export(&format!("f{}", i), i as u32));
    }
    m
}

fn resolve_func(host: &Host, module: warthog::runtime::ModuleAddr, name: &str) -> FuncAddr {
    let inst = host.get_module(module);
    match inst.find_export(name).expect("export missing").value() {
        ExternVal::Func(a) => a,
        ExternVal::Mem(_) => panic!("expected a function export"),
    }
}

#[test]
fn empty_module_instantiates_with_nothing() {
    let mut host = Host::new();
    let addr = host.instantiate(empty_module("m")).unwrap();
    assert_eq!(host.funcs().len(), 0);
    assert_eq!(host.mems().len(), 0);
    let inst = host.get_module(addr);
    assert_eq!(inst.funcs().len(), 0);
    assert_eq!(inst.mems().len(), 0);
    assert_eq!(inst.exports().len(), 0);
}

#[test]
fn const_function_returns_its_value() {
    let mut host = Host::new();
    let module = module_with_funcs(
        "m",
        vec![(
            FuncType::new(vec![], vec![ValType::I32]),
            FuncBody {
                locals: vec![],
                body: vec![Instruction::Const(Value::I32(42))],
            },
        )],
    );
    let addr = host.instantiate(module).unwrap();
    let f = resolve_func(&host, addr, "f0");

    let mut thread = Thread::new();
    thread.stack_mut().enter(addr, None, vec![]);
    let mut d = NoHost;
    let r = thread.invoke(&mut host, &mut d, f).unwrap();
    assert_eq!(r, vec![Value::I32(42)]);
    assert!(thread.stack().current().is_empty());
    assert_eq!(thread.stack().0.len(), 1);
}

#[test]
fn missing_second_result_underflows() {
    let mut host = Host::new();
    let module = module_with_funcs(
        "m",
        vec![(
            FuncType::new(vec![], vec![ValType::I32, ValType::I32]),
            FuncBody {
                locals: vec![],
                body: vec![Instruction::Const(Value::I32(1))],
            },
        )],
    );
    let addr = host.instantiate(module).unwrap();
    let f = resolve_func(&host, addr, "f0");

    let mut thread = Thread::new();
    thread.stack_mut().enter(addr, None, vec![]);
    let mut d = NoHost;
    let t = thread.invoke(&mut host, &mut d, f).unwrap_err();
    assert_eq!(*t.cause(), TrapCause::StackUnderflow);
    assert_eq!(thread.stack().0.len(), 1);
}

#[test]
fn wrong_argument_type_mismatches() {
    let mut host = Host::new();
    let module = module_with_funcs(
        "m",
        vec![(
            FuncType::new(vec![ValType::I32], vec![]),
            FuncBody {
                locals: vec![],
                body: vec![],
            },
        )],
    );
    let addr = host.instantiate(module).unwrap();
    let f = resolve_func(&host, addr, "f0");

    let mut thread = Thread::new();
    thread.stack_mut().enter(addr, None, vec![]);
    thread.push(Value::F32(0));
    let mut d = NoHost;
    let t = thread.invoke(&mut host, &mut d, f).unwrap_err();
    assert_eq!(
        *t.cause(),
        TrapCause::TypeMismatch {
            expected: ValType::I32,
            actual: ValType::F32,
        }
    );
    assert_eq!(thread.stack().0.len(), 1);
}

#[test]
fn data_segment_past_end_fails_without_writing() {
    let mut host = Host::new();
    // One module exports a two-byte memory.
    let mut exporter = empty_module("a");
    exporter.exports.push(Export {
        name: "mem".to_string(),
        description: MemberDesc::Memory(MemoryType {
            min: 2,
            max: None,
        }),
    });
    host.instantiate(exporter).unwrap();

    // Another imports it and tries to write three bytes at offset zero.
    let mut importer = empty_module("b");
    importer.imports.push(Import {
        module: "a".to_string(),
        name: "mem".to_string(),
        description: MemberDesc::Memory(MemoryType {
            min: 2,
            max: None,
        }),
    });
    importer.data.push(warthog::module::DataSegment {
        index: 0,
        expr: vec![Instruction::Const(Value::I32(0))],
        init: vec![1, 2, 3],
    });
    let err = host.instantiate(importer).unwrap_err();
    assert_eq!(err, Error::InvalidModule);
    // Nothing was written.
    assert_eq!(host.mems()[0].data(), &vec![0u8, 0u8]);
}

#[test]
fn data_segment_in_bounds_is_copied_verbatim() {
    let mut host = Host::new();
    let mut exporter = empty_module("a");
    exporter.exports.push(Export {
        name: "mem".to_string(),
        description: MemberDesc::Memory(MemoryType {
            min: 4,
            max: None,
        }),
    });
    host.instantiate(exporter).unwrap();

    let mut importer = empty_module("b");
    importer.imports.push(Import {
        module: "a".to_string(),
        name: "mem".to_string(),
        description: MemberDesc::Memory(MemoryType {
            min: 4,
            max: None,
        }),
    });
    importer.data.push(warthog::module::DataSegment {
        index: 0,
        expr: vec![Instruction::Const(Value::I32(1))],
        init: vec![7, 9],
    });
    host.instantiate(importer).unwrap();
    assert_eq!(host.mems()[0].data(), &vec![0u8, 7u8, 9u8, 0u8]);
}

#[test]
fn unregistered_import_fails_before_any_instantiation() {
    let mut host = Host::new();
    let mut importer = empty_module("b");
    importer.imports.push(Import {
        module: "nosuch".to_string(),
        name: "f".to_string(),
        description: MemberDesc::Function(0),
    });
    // Give it a local function too, to show none is instantiated.
    importer.types.push(FuncType::new(vec![], vec![]));
    importer.funcs.push(0);
    importer.code.push(FuncBody {
        locals: vec![],
        body: vec![],
    });
    let err = host.instantiate(importer).unwrap_err();
    assert_eq!(
        err,
        Error::ModuleNotFound {
            module: "nosuch".to_string()
        }
    );
    assert_eq!(host.funcs().len(), 0);
    assert_eq!(host.mems().len(), 0);
    assert_eq!(host.modules().len(), 0);
}

#[test]
fn missing_export_is_reported_with_both_names() {
    let mut host = Host::new();
    host.instantiate(empty_module("a")).unwrap();
    let mut importer = empty_module("b");
    importer.imports.push(Import {
        module: "a".to_string(),
        name: "ghost".to_string(),
        description: MemberDesc::Function(0),
    });
    let err = host.instantiate(importer).unwrap_err();
    assert_eq!(
        err,
        Error::ExportNotFound {
            module: "a".to_string(),
            name: "ghost".to_string()
        }
    );
}

#[test]
fn trace_lists_frames_innermost_first() {
    let mut host = Host::new();
    // f0 calls f1; f1 declares a result but its body leaves nothing.
    let module = module_with_funcs(
        "m",
        vec![
            (
                FuncType::new(vec![], vec![ValType::I32]),
                FuncBody {
                    locals: vec![],
                    body: vec![Instruction::Call(1)],
                },
            ),
            (
                FuncType::new(vec![], vec![ValType::I32]),
                FuncBody {
                    locals: vec![],
                    body: vec![],
                },
            ),
        ],
    );
    let addr = host.instantiate(module).unwrap();
    let fa = resolve_func(&host, addr, "f0");
    let fb = resolve_func(&host, addr, "f1");

    let mut thread = Thread::new();
    thread.stack_mut().enter(addr, None, vec![]);
    let mut d = NoHost;
    let t = thread.invoke(&mut host, &mut d, fa).unwrap_err();
    assert_eq!(*t.cause(), TrapCause::StackUnderflow);
    let trace = t.trace().as_ref().expect("engine traps carry a trace");
    let frames = trace.frames();
    assert_eq!(frames[0].func(), Some(fb));
    assert_eq!(frames[1].func(), Some(fa));
    assert_eq!(frames[2].func(), None);
    // The stack is back at its pre-call depth.
    assert_eq!(thread.stack().0.len(), 1);
}

#[test]
fn nested_call_pushes_results_for_the_caller() {
    let mut host = Host::new();
    // f0 returns f1's result; f1 returns a constant.
    let module = module_with_funcs(
        "m",
        vec![
            (
                FuncType::new(vec![], vec![ValType::I32]),
                FuncBody {
                    locals: vec![],
                    body: vec![Instruction::Call(1)],
                },
            ),
            (
                FuncType::new(vec![], vec![ValType::I32]),
                FuncBody {
                    locals: vec![],
                    body: vec![Instruction::Const(Value::I32(7))],
                },
            ),
        ],
    );
    let addr = host.instantiate(module).unwrap();
    let fa = resolve_func(&host, addr, "f0");

    let mut thread = Thread::new();
    thread.stack_mut().enter(addr, None, vec![]);
    let mut d = NoHost;
    let r = thread.invoke(&mut host, &mut d, fa).unwrap();
    assert_eq!(r, vec![Value::I32(7)]);
}

#[test]
fn eval_requires_exactly_one_residual_value() {
    let mut host = Host::new();
    let addr = host.instantiate(empty_module("m")).unwrap();
    let mut thread = Thread::new();
    thread.stack_mut().enter(addr, None, vec![]);
    let mut d = NoHost;

    let one = thread
        .eval(&mut host, &mut d, addr, &vec![Instruction::Const(Value::I32(9))])
        .unwrap();
    assert_eq!(one, Value::I32(9));

    let none = thread.eval(&mut host, &mut d, addr, &vec![]).unwrap_err();
    assert_eq!(*none.cause(), TrapCause::StackUnderflow);

    let two = thread
        .eval(
            &mut host,
            &mut d,
            addr,
            &vec![
                Instruction::Const(Value::I32(1)),
                Instruction::Const(Value::I32(2)),
            ],
        )
        .unwrap_err();
    assert_eq!(*two.cause(), TrapCause::StackNotEmpty);
    assert_eq!(thread.stack().0.len(), 1);
}

#[test]
fn call_evaluates_arguments_into_parameters() {
    let mut host = Host::new();
    // One parameter, returned by value: the body cannot read locals yet, so
    // use a function that just type-checks its argument and returns its own
    // constant.
    let module = module_with_funcs(
        "m",
        vec![(
            FuncType::new(vec![ValType::I32], vec![ValType::I32]),
            FuncBody {
                locals: vec![],
                body: vec![Instruction::Const(Value::I32(3))],
            },
        )],
    );
    let addr = host.instantiate(module).unwrap();
    let f = resolve_func(&host, addr, "f0");

    let mut thread = Thread::new();
    thread.stack_mut().enter(addr, None, vec![]);
    let mut d = NoHost;
    let r = thread
        .call(
            &mut host,
            &mut d,
            addr,
            f,
            &vec![vec![Instruction::Const(Value::I32(5))]],
        )
        .unwrap();
    assert_eq!(r, vec![Value::I32(3)]);
    assert_eq!(thread.stack().0.len(), 1);
}

#[test]
fn synthesized_module_dispatches_to_the_host() {
    let mut host = Host::new();
    let mut env = ModuleBuilder::new("env".to_string());
    env.add_func(ExternalFunc::new(
        "answer".to_string(),
        FuncType::new(vec![], vec![ValType::I32]),
    ));
    let env_addr = host.synthesize(env);
    assert_eq!(host.funcs().len(), 1);

    // A guest that imports env.answer and calls it.
    let mut guest = empty_module("guest");
    guest.imports.push(Import {
        module: "env".to_string(),
        name: "answer".to_string(),
        description: MemberDesc::Function(0),
    });
    guest.types.push(FuncType::new(vec![], vec![ValType::I32]));
    guest.funcs.push(0);
    guest.code.push(FuncBody {
        locals: vec![],
        body: vec![Instruction::Call(0)],
    });
    guest.exports.push(func_export("main", 1));
    let guest_addr = host.instantiate(guest).unwrap();
    let main = resolve_func(&host, guest_addr, "main");

    let mut thread = Thread::new();
    thread.stack_mut().enter(guest_addr, None, vec![]);
    let mut d = ConstantHost(42);
    let r = thread.invoke(&mut host, &mut d, main).unwrap();
    assert_eq!(r, vec![Value::I32(42)]);
    let _ = env_addr;
}

#[test]
fn every_export_resolves_after_instantiation() {
    let mut host = Host::new();
    let module = module_with_funcs(
        "m",
        vec![
            (
                FuncType::new(vec![], vec![]),
                FuncBody {
                    locals: vec![],
                    body: vec![],
                },
            ),
            (
                FuncType::new(vec![], vec![]),
                FuncBody {
                    locals: vec![],
                    body: vec![],
                },
            ),
        ],
    );
    let names: Vec<String> = module.exports.iter().map(|e| e.name.clone()).collect();
    let addr = host.instantiate(module).unwrap();
    let inst = host.get_module(addr);
    for name in names {
        assert!(inst.find_export(&name).is_some());
    }
}

#[test]
fn call_depth_is_bounded() {
    let mut host = Host::new();
    // A function that calls itself forever.
    let module = module_with_funcs(
        "m",
        vec![(
            FuncType::new(vec![], vec![]),
            FuncBody {
                locals: vec![],
                body: vec![Instruction::Call(0)],
            },
        )],
    );
    let addr = host.instantiate(module).unwrap();
    let f = resolve_func(&host, addr, "f0");

    let mut thread = Thread::with_max_depth(16);
    thread.stack_mut().enter(addr, None, vec![]);
    let mut d = NoHost;
    let t = thread.invoke(&mut host, &mut d, f).unwrap_err();
    assert_eq!(*t.cause(), TrapCause::CallDepthExceeded);
    assert_eq!(thread.stack().0.len(), 1);
}

#[test]
fn nil_values_are_never_materialized() {
    let mut host = Host::new();
    let addr = host.instantiate(empty_module("m")).unwrap();
    let mut thread = Thread::new();
    thread.stack_mut().enter(addr, None, vec![]);
    thread.push(Value::Nil);
    assert!(thread.stack().current().is_empty());
    let mut d = NoHost;
    let _ = &mut d;
    let t = thread.pop().unwrap_err();
    assert_eq!(*t.cause(), TrapCause::StackUnderflow);
}

#[test]
fn value_coercion_distinguishes_mismatch_from_absence() {
    assert_eq!(u32::from_value(Value::I32(5)), Ok(5));
    assert_eq!(
        u32::from_value(Value::I64(5)),
        Err(TrapCause::TypeMismatch {
            expected: ValType::I32,
            actual: ValType::I64,
        })
    );
    assert_eq!(u32::from_value(Value::Nil), Err(TrapCause::StackUnderflow));
    assert_eq!(i64::from_value(Value::I64(7)), Ok(7));
}
