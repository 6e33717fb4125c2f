use warthog::hosting::HostDispatch;
use warthog::interp::{Thread, Trap};
use warthog::module::{FuncType, Instruction, MemberDesc};
use warthog::reader::Reader;
use warthog::runtime::{ExternVal, FuncAddr, Host};
use warthog::value::{TrapCause, ValType, Value};
use warthog::Error;

struct NoHost;

impl HostDispatch for NoHost {
    fn call_external(
        &mut self,
        _host: &mut Host,
        _func: FuncAddr,
        _typ: &FuncType,
        _args: Vec<Value>,
    ) -> Result<Vec<Value>, Trap> {
        Err(Trap::new(
            TrapCause::Message("no host functions registered".to_string()),
            None,
        ))
    }
}

fn header() -> Vec<u8> {
    // The magic value, then version one, both little endian.
    vec![0x00, 0x61, 0x73, 0x6D, 0x01, 0x00, 0x00, 0x00]
}

#[test]
fn header_only_loads_an_empty_module() {
    let m = warthog::module::Module::load(Reader::new(header())).unwrap();
    assert_eq!(m.types.len(), 0);
    assert_eq!(m.funcs.len(), 0);
    assert_eq!(m.code.len(), 0);
    assert_eq!(m.imports.len(), 0);
    assert_eq!(m.exports.len(), 0);
    assert_eq!(m.data.len(), 0);
    assert!(m.names.is_none());

    // And it instantiates with zero functions and memories.
    let mut host = Host::new();
    host.instantiate(m).unwrap();
    assert_eq!(host.funcs().len(), 0);
    assert_eq!(host.mems().len(), 0);
}

#[test]
fn bad_magic_is_an_invalid_module() {
    let bytes = vec![0x00, 0x61, 0x73, 0x6E, 0x01, 0x00, 0x00, 0x00];
    assert_eq!(
        warthog::module::Module::load(Reader::new(bytes)).unwrap_err(),
        Error::InvalidModule
    );
}

#[test]
fn truncated_header_is_an_io_failure() {
    let bytes = vec![0x00, 0x61, 0x73];
    assert_eq!(
        warthog::module::Module::load(Reader::new(bytes)).unwrap_err(),
        Error::UnexpectedEof
    );
}

#[test]
fn truncation_inside_a_section_is_an_io_failure() {
    let mut bytes = header();
    // A type section that promises four payload bytes but has none.
    bytes.extend_from_slice(&[1, 4]);
    assert_eq!(
        warthog::module::Module::load(Reader::new(bytes)).unwrap_err(),
        Error::UnexpectedEof
    );
}

#[test]
fn unknown_sections_are_skipped() {
    let mut bytes = header();
    bytes.extend_from_slice(&[0, 3, 0xAA, 0xBB, 0xCC]); // custom, skipped
    bytes.extend_from_slice(&[99, 1, 0xFF]); // unknown id, also skipped
    let m = warthog::module::Module::load(Reader::new(bytes)).unwrap();
    assert_eq!(m.types.len(), 0);
}

/// A whole program: one `() -> i32` function whose body pushes 42, exported
/// as "main", decoded from bytes, instantiated and invoked.
#[test]
fn loaded_module_runs() {
    let mut bytes = header();
    // Type section: one signature, no parameters, one i32 result.
    bytes.extend_from_slice(&[1, 4, 1, 0, 1, 0x7F]);
    // Function section: one function of type zero.
    bytes.extend_from_slice(&[3, 2, 1, 0]);
    // Export section: "main", a function, index zero.
    bytes.extend_from_slice(&[7, 8, 1, 4, b'm', b'a', b'i', b'n', 0, 0]);
    // Code section: one body, no locals, one `i32.const 42` instruction.
    bytes.extend_from_slice(&[10, 5, 1, 0, 1, 0x41, 42]);

    let mut module = warthog::module::Module::load(Reader::new(bytes)).unwrap();
    module.set_name("m".to_string());
    assert_eq!(module.types[0].results, vec![ValType::I32]);
    assert_eq!(
        module.code[0].body,
        vec![Instruction::Const(Value::I32(42))]
    );
    assert_eq!(module.exports[0].name, "main");
    assert_eq!(module.exports[0].description, MemberDesc::Function(0));

    let mut host = Host::new();
    let addr = host.instantiate(module).unwrap();
    let main = match host
        .get_module(addr)
        .find_export("main")
        .expect("export missing")
        .value()
    {
        ExternVal::Func(a) => a,
        ExternVal::Mem(_) => panic!("expected a function"),
    };
    let mut thread = Thread::new();
    thread.stack_mut().enter(addr, None, vec![]);
    let mut d = NoHost;
    assert_eq!(
        thread.invoke(&mut host, &mut d, main).unwrap(),
        vec![Value::I32(42)]
    );
}

#[test]
fn negative_constants_decode_as_two_complement_bits() {
    let mut bytes = header();
    bytes.extend_from_slice(&[1, 4, 1, 0, 1, 0x7F]); // type () -> i32
    bytes.extend_from_slice(&[3, 2, 1, 0]); // one function
    // Code: `i32.const -1` is the single byte 0x7F in the signed encoding.
    bytes.extend_from_slice(&[10, 5, 1, 0, 1, 0x41, 0x7F]);
    let m = warthog::module::Module::load(Reader::new(bytes)).unwrap();
    assert_eq!(
        m.code[0].body,
        vec![Instruction::Const(Value::I32(0xFFFF_FFFF))]
    );
}

#[test]
fn multi_byte_counts_decode() {
    let mut bytes = header();
    // A custom section whose length, 130, needs two base-128 bytes.
    bytes.extend_from_slice(&[0, 0x82, 0x01]);
    bytes.extend_from_slice(&[0u8; 130]);
    let m = warthog::module::Module::load(Reader::new(bytes)).unwrap();
    assert_eq!(m.types.len(), 0);
}

#[test]
fn overlong_counts_are_invalid() {
    let mut bytes = header();
    // Six continuation bytes: too many groups for 32 bits.
    bytes.extend_from_slice(&[0, 0x80, 0x80, 0x80, 0x80, 0x80, 0x01]);
    assert_eq!(
        warthog::module::Module::load(Reader::new(bytes)).unwrap_err(),
        Error::InvalidModule
    );
}

#[test]
fn imported_memories_decode() {
    let mut bytes = header();
    // Import section: one entry, "a"."mem", a memory with min 2 and max 9.
    bytes.extend_from_slice(&[2, 11, 1, 1, b'a', 3, b'm', b'e', b'm', 2, 1, 2, 9]);
    let m = warthog::module::Module::load(Reader::new(bytes)).unwrap();
    assert_eq!(m.imports.len(), 1);
    assert_eq!(m.imports[0].module, "a");
    assert_eq!(m.imports[0].name, "mem");
    assert_eq!(
        m.imports[0].description,
        MemberDesc::Memory(warthog::module::MemoryType {
            min: 2,
            max: Some(9),
        })
    );
}

#[test]
fn data_segments_decode() {
    let mut bytes = header();
    // Data section: one segment, memory 0, offset `i32.const 1`, bytes [5, 6].
    bytes.extend_from_slice(&[11, 8, 1, 0, 1, 0x41, 1, 2, 5, 6]);
    let m = warthog::module::Module::load(Reader::new(bytes)).unwrap();
    assert_eq!(m.data.len(), 1);
    assert_eq!(m.data[0].index, 0);
    assert_eq!(m.data[0].expr, vec![Instruction::Const(Value::I32(1))]);
    assert_eq!(m.data[0].init, vec![5, 6]);
}

#[test]
fn name_section_decodes_debug_names() {
    let mut bytes = header();
    // Name section: module name "m"; one entry: function 0 named "f" with
    // local 0 named "x".
    bytes.extend_from_slice(&[12, 12, 1, 1, b'm', 1, 0, 1, 1, b'f', 1, 0, 1, b'x']);
    let m = warthog::module::Module::load(Reader::new(bytes)).unwrap();
    let names = m.names.expect("name section decoded");
    assert_eq!(names.module_name, Some("m".to_string()));
    assert_eq!(names.funcs.len(), 1);
    assert_eq!(names.funcs[0].0, 0);
    assert_eq!(names.funcs[0].1.func_name, Some("f".to_string()));
    assert_eq!(names.funcs[0].1.locals, vec![(0u32, "x".to_string())]);
}

#[test]
fn nameless_name_section_decodes() {
    let mut bytes = header();
    // Name section with no module name and no entries.
    bytes.extend_from_slice(&[12, 2, 0, 0]);
    let m = warthog::module::Module::load(Reader::new(bytes)).unwrap();
    let names = m.names.expect("name section decoded");
    assert_eq!(names.module_name, None);
    assert_eq!(names.funcs.len(), 0);
}

#[test]
fn value_type_bytes_decode() {
    assert_eq!(ValType::from_u8(0x7F), Ok(ValType::I32));
    assert_eq!(ValType::from_u8(0x7E), Ok(ValType::I64));
    assert_eq!(ValType::from_u8(0x7D), Ok(ValType::F32));
    assert_eq!(ValType::from_u8(0x7C), Ok(ValType::F64));
    assert_eq!(ValType::from_u8(0x40), Ok(ValType::Nil));
    assert_eq!(ValType::from_u8(0x11), Err(Error::InvalidModule));
}
