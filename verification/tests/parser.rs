use warthog::builder::ModuleBuilder;
use warthog::text::{single_command, ParserErrorKind, ScriptCommand};

#[test]
pub fn empty_module() {
    let expected_module = ModuleBuilder::new().build();

    assert_eq!(
        ScriptCommand::Module(expected_module),
        single_command("(module)").unwrap()
    );
}

#[test]
fn empty_module_with_whitespace() {
    let expected_module = ModuleBuilder::new().build();
    assert_eq!(
        ScriptCommand::Module(expected_module),
        single_command("  ( module )\n").unwrap()
    );
}

#[test]
fn module_with_body_is_rejected() {
    let err = single_command("(module (func))").unwrap_err();
    assert_eq!(err.kind, ParserErrorKind::UnexpectedAtom("func".to_string()));
}

#[test]
fn non_module_form_is_rejected() {
    assert!(single_command("(assert_return)").is_err());
    assert!(single_command("module").is_err());
    assert!(single_command("(module").is_err());
}
