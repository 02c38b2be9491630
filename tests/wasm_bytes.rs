use weloce::{section_from_raw, RawPayload, 
    compile_wasm, decode_sections, CompileError, HostError, HostFunction, Imports, Instruction,
    Return, Section, ValType, Value, Vm,
};

struct Constant(i64);

impl HostFunction for Constant {
    fn call(&mut self, _args: Vec<Value>) -> Result<Return, HostError> {
        Ok(Return::Single(Value::new(ValType::I32, self.0)))
    }
}

/// A module importing `env.get_number: () -> i32` and exporting `add_five_to_imported`,
/// which calls the import and adds five.
fn reference_bytes() -> Vec<u8> {
    let mut b = vec![0x00, 0x61, 0x73, 0x6d, 0x01, 0x00, 0x00, 0x00];
    b.extend([0x01, 0x05, 0x01, 0x60, 0x00, 0x01, 0x7f]);
    b.extend([0x02, 0x12, 0x01, 0x03]);
    b.extend(b"env");
    b.push(0x0a);
    b.extend(b"get_number");
    b.extend([0x00, 0x00]);
    b.extend([0x03, 0x02, 0x01, 0x00]);
    b.extend([0x07, 0x18, 0x01, 0x14]);
    b.extend(b"add_five_to_imported");
    b.extend([0x00, 0x01]);
    b.extend([0x0a, 0x09, 0x01, 0x07, 0x00, 0x10, 0x00, 0x41, 0x05, 0x6a, 0x0b]);
    b
}

#[test]
fn reference_module_from_bytes_returns_47() {
    let mut imports = Imports::new();
    imports.add_import("env", "get_number", vec![], vec![ValType::I32], Constant(42));
    let bytecode = compile_wasm(&reference_bytes(), &imports).unwrap();
    let mut vm = Vm::new();
    match vm.run(&bytecode, "add_five_to_imported", &mut imports) {
        Ok(Return::Single(v)) => {
            assert_eq!(v.val_type, ValType::I32);
            assert_eq!(v.value, 47);
        },
        other => panic!("unexpected {:?}", other),
    }
}

#[test]
fn decoded_sections_follow_the_bytes() {
    let sections = decode_sections(&reference_bytes()).unwrap();
    let mut kinds = Vec::new();
    for s in &sections {
        match s {
            Section::Types(ts) => {
                assert_eq!(ts.len(), 1);
                assert!(ts[0].params.is_empty());
                assert_eq!(ts[0].results, vec![ValType::I32]);
                kinds.push("types");
            },
            Section::Imports(ds) => {
                assert_eq!(ds[0].module, "env");
                assert_eq!(ds[0].name, "get_number");
                assert_eq!(ds[0].func_type_index, Some(0));
                kinds.push("imports");
            },
            Section::Functions(fs) => {
                assert_eq!(fs, &vec![0]);
                kinds.push("functions");
            },
            Section::Exports(ds) => {
                assert_eq!(ds[0].name, "add_five_to_imported");
                assert_eq!(ds[0].index, 1);
                kinds.push("exports");
            },
            Section::Code(c) => {
                assert!(c.locals.is_empty());
                assert_eq!(
                    c.body,
                    vec![Instruction::Call(0), Instruction::I32Const(5), Instruction::I32Add, Instruction::End]
                );
                kinds.push("code");
            },
            Section::Other => {},
        }
    }
    assert_eq!(kinds, vec!["types", "imports", "functions", "exports", "code"]);
}

#[test]
fn bytes_without_registry_entry_are_refused() {
    let imports: Imports<Constant> = Imports::new();
    assert!(matches!(compile_wasm(&reference_bytes(), &imports), Err(CompileError::ImportNotFound)));
}

#[test]
fn malformed_bytes_are_refused() {
    let imports: Imports<Constant> = Imports::new();
    let r = compile_wasm(&[0x00, 0x61, 0x73, 0x6d, 0x02], &imports);
    assert!(matches!(r, Err(CompileError::Malformed)));
}

#[test]
fn unsupported_operator_is_refused() {
    let mut b = vec![0x00, 0x61, 0x73, 0x6d, 0x01, 0x00, 0x00, 0x00];
    b.extend([0x01, 0x04, 0x01, 0x60, 0x00, 0x00]);
    b.extend([0x03, 0x02, 0x01, 0x00]);
    // body: no locals, `nop`, `end`
    b.extend([0x0a, 0x05, 0x01, 0x03, 0x00, 0x01, 0x0b]);
    let imports: Imports<Constant> = Imports::new();
    assert!(matches!(compile_wasm(&b, &imports), Err(CompileError::UnsupportedOperator)));
}

#[test]
fn raw_types_convert_or_fail() {
    let ok = section_from_raw(RawPayload::Types(vec![(vec![Some(ValType::I64)], vec![Some(ValType::F32)])]));
    match ok {
        Ok(Section::Types(ts)) => {
            assert_eq!(ts[0].params, vec![ValType::I64]);
            assert_eq!(ts[0].results, vec![ValType::F32]);
        },
        other => panic!("unexpected {:?}", other),
    }
    let bad = section_from_raw(RawPayload::Types(vec![(vec![None], vec![])]));
    assert!(matches!(bad, Err(CompileError::UnsupportedValueType)));
}

#[test]
fn raw_code_checks_locals_before_operators() {
    let both = section_from_raw(RawPayload::Code(vec![(1, None)], vec![None]));
    assert!(matches!(both, Err(CompileError::UnsupportedValueType)));
    let op = section_from_raw(RawPayload::Code(vec![(2, Some(ValType::I32))], vec![Some(Instruction::End), None]));
    assert!(matches!(op, Err(CompileError::UnsupportedOperator)));
    match section_from_raw(RawPayload::Code(vec![(2, Some(ValType::I32))], vec![Some(Instruction::End)])) {
        Ok(Section::Code(c)) => {
            assert_eq!(c.locals, vec![(2, ValType::I32)]);
            assert_eq!(c.body, vec![Instruction::End]);
        },
        other => panic!("unexpected {:?}", other),
    }
}
