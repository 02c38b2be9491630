use weloce::{
    compile_sections, Bytecode, CodeEntry, CompileError, Export, ExportDecl, ExportKind, Exports,
    FuncType, HostError, HostFunction, Import, ImportDecl, Imports, Instruction, Return, Section,
    ValType, Value, Vm, VmError,
};

struct Constant(i64);

impl HostFunction for Constant {
    fn call(&mut self, _args: Vec<Value>) -> Result<Return, HostError> {
        Ok(Return::Single(Value::new(ValType::I32, self.0)))
    }
}

struct Failing;

impl HostFunction for Failing {
    fn call(&mut self, _args: Vec<Value>) -> Result<Return, HostError> {
        Err(HostError { message: "host failed".to_string() })
    }
}

fn sig(params: Vec<ValType>, results: Vec<ValType>) -> FuncType {
    FuncType::new(params, results)
}

fn export(name: &str, index: u32) -> ExportDecl {
    ExportDecl { name: name.to_string(), kind: ExportKind::Function, index }
}

/// One module-defined function of the given type, exported as "f".
fn single_function(ty: FuncType, locals: Vec<(u32, ValType)>, body: Vec<Instruction>) -> Vec<Section> {
    vec![
        Section::Types(vec![ty]),
        Section::Functions(vec![0]),
        Section::Exports(vec![export("f", 0)]),
        Section::Code(CodeEntry { locals, body }),
    ]
}

fn run_single(ty: FuncType, body: Vec<Instruction>, args: Vec<i64>) -> Result<Return, VmError> {
    let mut imports: Imports<Constant> = Imports::new();
    let bytecode = compile_sections(&single_function(ty, vec![], body), &imports).unwrap();
    let mut vm = Vm::new();
    vm.stack.extend(args);
    vm.run(&bytecode, "f", &mut imports)
}

fn binop_result(a: i32, b: i32, op: Instruction) -> Result<Return, VmError> {
    run_single(
        sig(vec![], vec![ValType::I32]),
        vec![Instruction::I32Const(a), Instruction::I32Const(b), op, Instruction::End],
        vec![],
    )
}

fn single_value(r: Result<Return, VmError>) -> i64 {
    match r {
        Ok(Return::Single(v)) => v.value,
        other => panic!("expected one value, got {:?}", other),
    }
}

fn reference_module() -> Vec<Section> {
    vec![
        Section::Types(vec![sig(vec![], vec![ValType::I32])]),
        Section::Imports(vec![ImportDecl {
            module: "env".to_string(),
            name: "get_number".to_string(),
            func_type_index: Some(0),
        }]),
        Section::Functions(vec![0]),
        Section::Exports(vec![export("add_five_to_imported", 1)]),
        Section::Code(CodeEntry {
            locals: vec![],
            body: vec![
                Instruction::Call(0),
                Instruction::I32Const(5),
                Instruction::I32Add,
                Instruction::End,
            ],
        }),
    ]
}

#[test]
fn reference_scenario_returns_47() {
    let mut imports = Imports::new();
    imports.add_import("env", "get_number", vec![], vec![ValType::I32], Constant(42));
    let bytecode = compile_sections(&reference_module(), &imports).unwrap();
    let mut vm = Vm::new();
    let result = vm.run(&bytecode, "add_five_to_imported", &mut imports);
    match result {
        Ok(Return::Single(v)) => {
            assert_eq!(v.val_type, ValType::I32);
            assert_eq!(v.value, 47);
        },
        other => panic!("unexpected {:?}", other),
    }
    assert!(vm.stack.is_empty());
}

#[test]
fn import_absent_from_registry_is_refused() {
    let imports: Imports<Constant> = Imports::new();
    let r = compile_sections(&reference_module(), &imports);
    assert!(matches!(r, Err(CompileError::ImportNotFound)));
}

#[test]
fn import_with_other_signature_is_refused() {
    let mut imports = Imports::new();
    imports.add_import("env", "get_number", vec![ValType::I32], vec![ValType::I32], Constant(1));
    let r = compile_sections(&reference_module(), &imports);
    assert!(matches!(r, Err(CompileError::ImportSignatureMismatch)));
}

#[test]
fn import_under_other_module_is_refused() {
    let mut imports = Imports::new();
    imports.add_import("host", "get_number", vec![], vec![ValType::I32], Constant(1));
    let r = compile_sections(&reference_module(), &imports);
    assert!(matches!(r, Err(CompileError::ImportNotFound)));
}

#[test]
fn import_of_other_kind_is_refused() {
    let imports: Imports<Constant> = Imports::new();
    let sections = vec![Section::Imports(vec![ImportDecl {
        module: "env".to_string(),
        name: "memory".to_string(),
        func_type_index: None,
    }])];
    assert!(matches!(compile_sections(&sections, &imports), Err(CompileError::UnsupportedImport)));
}

#[test]
fn import_with_unknown_type_index_is_refused() {
    let mut imports = Imports::new();
    imports.add_import("env", "get_number", vec![], vec![ValType::I32], Constant(1));
    let sections = vec![Section::Imports(vec![ImportDecl {
        module: "env".to_string(),
        name: "get_number".to_string(),
        func_type_index: Some(3),
    }])];
    assert!(matches!(compile_sections(&sections, &imports), Err(CompileError::InvalidTypeIndex)));
}

#[test]
fn function_with_unknown_type_index_is_refused() {
    let imports: Imports<Constant> = Imports::new();
    let sections = vec![Section::Functions(vec![0])];
    assert!(matches!(compile_sections(&sections, &imports), Err(CompileError::InvalidTypeIndex)));
}

#[test]
fn code_without_function_is_refused() {
    let imports: Imports<Constant> = Imports::new();
    let sections = vec![Section::Code(CodeEntry { locals: vec![], body: vec![Instruction::End] })];
    assert!(matches!(compile_sections(&sections, &imports), Err(CompileError::MissingFunction)));
}

#[test]
fn compiled_table_lists_imports_then_definitions() {
    let mut imports = Imports::new();
    imports.add_import("env", "get_number", vec![], vec![ValType::I32], Constant(42));
    let mut sections = reference_module();
    sections.push(Section::Other);
    let bytecode = compile_sections(&sections, &imports).unwrap();
    assert_eq!(bytecode.functions.len(), 2);
    assert!(matches!(bytecode.functions[0].kind, weloce::FunctKind::Import { index: 0 }));
    match &bytecode.functions[1].kind {
        weloce::FunctKind::Definition(def) => {
            assert_eq!(def.body.len(), 4);
            assert!(def.locals.is_empty());
        },
        _ => panic!("expected a definition"),
    }
}

#[test]
fn add_is_wrapping() {
    assert_eq!(single_value(binop_result(2, 3, Instruction::I32Add)), 5);
    assert_eq!(single_value(binop_result(i32::MAX, 1, Instruction::I32Add)), i32::MIN as i64);
}

#[test]
fn sub_is_wrapping() {
    assert_eq!(single_value(binop_result(2, 7, Instruction::I32Sub)), -5);
    assert_eq!(single_value(binop_result(i32::MIN, 1, Instruction::I32Sub)), i32::MAX as i64);
}

#[test]
fn mul_is_wrapping() {
    assert_eq!(single_value(binop_result(-6, 7, Instruction::I32Mul)), -42);
    assert_eq!(single_value(binop_result(0x10000, 0x10000, Instruction::I32Mul)), 0);
}

#[test]
fn div_truncates_toward_zero() {
    assert_eq!(single_value(binop_result(7, 2, Instruction::I32Div)), 3);
    assert_eq!(single_value(binop_result(-7, 2, Instruction::I32Div)), -3);
}

#[test]
fn rem_takes_sign_of_dividend() {
    assert_eq!(single_value(binop_result(-7, 2, Instruction::I32Rem)), -1);
    assert_eq!(single_value(binop_result(7, -2, Instruction::I32Rem)), 1);
    assert_eq!(single_value(binop_result(i32::MIN, -1, Instruction::I32Rem)), 0);
}

#[test]
fn division_by_zero_fails() {
    assert!(matches!(binop_result(1, 0, Instruction::I32Div), Err(VmError::DivisionByZero)));
    assert!(matches!(binop_result(1, 0, Instruction::I32Rem), Err(VmError::DivisionByZero)));
}

#[test]
fn overflowing_division_fails() {
    assert!(matches!(binop_result(i32::MIN, -1, Instruction::I32Div), Err(VmError::IntegerOverflow)));
}

#[test]
fn bitwise_operations() {
    assert_eq!(single_value(binop_result(0b1100, 0b1010, Instruction::I32And)), 0b1000);
    assert_eq!(single_value(binop_result(0b1100, 0b1010, Instruction::I32Or)), 0b1110);
    assert_eq!(single_value(binop_result(0b1100, 0b1010, Instruction::I32Xor)), 0b0110);
}

#[test]
fn shift_left_masks_the_amount() {
    assert_eq!(single_value(binop_result(1, 4, Instruction::I32Shl)), 16);
    assert_eq!(single_value(binop_result(1, 33, Instruction::I32Shl)), 2);
    assert_eq!(single_value(binop_result(1, 31, Instruction::I32Shl)), i32::MIN as i64);
}

#[test]
fn call_round_trip_adds_five_to_argument() {
    let body = vec![
        Instruction::LocalGet(0),
        Instruction::I32Const(5),
        Instruction::I32Add,
        Instruction::End,
    ];
    let r = run_single(sig(vec![ValType::I32], vec![ValType::I32]), body, vec![37]);
    assert_eq!(single_value(r), 42);
}

#[test]
fn declared_locals_start_at_zero_and_can_be_set() {
    let mut imports: Imports<Constant> = Imports::new();
    let body = vec![
        Instruction::LocalGet(2),
        Instruction::I32Const(9),
        Instruction::LocalSet(1),
        Instruction::LocalGet(1),
        Instruction::I32Add,
        Instruction::End,
    ];
    let sections = single_function(
        sig(vec![], vec![ValType::I32]),
        vec![(2, ValType::I32), (1, ValType::I64)],
        body,
    );
    let bytecode = compile_sections(&sections, &imports).unwrap();
    match &bytecode.functions[0].kind {
        weloce::FunctKind::Definition(def) => {
            assert_eq!(def.locals, vec![ValType::I32, ValType::I32, ValType::I64]);
        },
        _ => panic!("expected a definition"),
    }
    let mut vm = Vm::new();
    assert_eq!(single_value(vm.run(&bytecode, "f", &mut imports)), 9);
}

#[test]
fn local_index_out_of_range_fails() {
    let r = run_single(sig(vec![], vec![]), vec![Instruction::LocalGet(0)], vec![]);
    assert!(matches!(r, Err(VmError::LocalIndexOutOfRange)));
}

#[test]
fn unknown_export_is_not_found() {
    let r = {
        let mut imports: Imports<Constant> = Imports::new();
        let bytecode = compile_sections(&single_function(sig(vec![], vec![]), vec![], vec![Instruction::End]), &imports).unwrap();
        Vm::new().run(&bytecode, "missing", &mut imports)
    };
    assert!(matches!(r, Err(VmError::FunctionNotFound)));
}

#[test]
fn non_function_export_is_not_found() {
    let mut imports: Imports<Constant> = Imports::new();
    let mut sections = single_function(sig(vec![], vec![]), vec![], vec![Instruction::End]);
    sections.push(Section::Exports(vec![ExportDecl {
        name: "mem".to_string(),
        kind: ExportKind::Memory,
        index: 0,
    }]));
    let bytecode = compile_sections(&sections, &imports).unwrap();
    let r = Vm::new().run(&bytecode, "mem", &mut imports);
    assert!(matches!(r, Err(VmError::FunctionNotFound)));
}

#[test]
fn later_export_of_a_name_wins() {
    let mut exports = Exports::new();
    exports.add_export("f".to_string(), Export { kind: ExportKind::Function, index: 1 });
    exports.add_export("g".to_string(), Export { kind: ExportKind::Global, index: 4 });
    exports.add_export("f".to_string(), Export { kind: ExportKind::Function, index: 2 });
    assert_eq!(exports.get_export("f"), Some(&Export { kind: ExportKind::Function, index: 2 }));
    assert_eq!(exports.get_export("g"), Some(&Export { kind: ExportKind::Global, index: 4 }));
    assert_eq!(exports.get_export("h"), None);
}

#[test]
fn binary_instruction_on_short_stack_underflows() {
    let r = run_single(sig(vec![], vec![ValType::I32]), vec![Instruction::I32Const(1), Instruction::I32Add], vec![]);
    assert!(matches!(r, Err(VmError::StackUnderflow)));
}

#[test]
fn missing_arguments_underflow() {
    let body = vec![Instruction::LocalGet(0), Instruction::End];
    let r = run_single(sig(vec![ValType::I32, ValType::I32], vec![ValType::I32]), body, vec![1]);
    assert!(matches!(r, Err(VmError::StackUnderflow)));
}

#[test]
fn missing_results_underflow() {
    let r = run_single(sig(vec![], vec![ValType::I32]), vec![Instruction::End], vec![]);
    assert!(matches!(r, Err(VmError::StackUnderflow)));
}

#[test]
fn compiling_twice_gives_the_same_table_and_results() {
    let mut imports = Imports::new();
    imports.add_import("env", "get_number", vec![], vec![ValType::I32], Constant(42));
    let first: Bytecode = compile_sections(&reference_module(), &imports).unwrap();
    let second: Bytecode = compile_sections(&reference_module(), &imports).unwrap();
    assert_eq!(first.functions.len(), second.functions.len());
    assert_eq!(first.exports.get_export("add_five_to_imported"), second.exports.get_export("add_five_to_imported"));
    let a = single_value(Vm::new().run(&first, "add_five_to_imported", &mut imports));
    let b = single_value(Vm::new().run(&second, "add_five_to_imported", &mut imports));
    assert_eq!(a, b);
}

#[test]
fn unimplemented_instructions_fail() {
    for instr in [Instruction::GlobalGet(0), Instruction::GlobalSet(0), Instruction::Return] {
        let r = run_single(sig(vec![], vec![]), vec![Instruction::I32Const(1), instr, Instruction::End], vec![]);
        assert!(matches!(r, Err(VmError::Unimplemented)));
    }
}

#[test]
fn several_results_are_popped_top_first() {
    let body = vec![Instruction::I32Const(1), Instruction::I32Const(2), Instruction::End];
    let r = run_single(sig(vec![], vec![ValType::I32, ValType::I64]), body, vec![]);
    match r {
        Ok(Return::Multiple(vs)) => {
            assert_eq!(vs, vec![Value::new(ValType::I32, 2), Value::new(ValType::I64, 1)]);
        },
        other => panic!("unexpected {:?}", other),
    }
}

#[test]
fn no_results_give_void() {
    let r = run_single(sig(vec![], vec![]), vec![Instruction::End], vec![]);
    assert!(matches!(r, Ok(Return::Void)));
}

#[test]
fn host_failure_propagates() {
    let mut imports = Imports::new();
    imports.add_import("env", "get_number", vec![], vec![ValType::I32], Failing);
    let bytecode = compile_sections(&reference_module(), &imports).unwrap();
    let r = Vm::new().run(&bytecode, "add_five_to_imported", &mut imports);
    match r {
        Err(VmError::Host(e)) => assert_eq!(e.message, "host failed"),
        other => panic!("unexpected {:?}", other),
    }
}

#[test]
fn unbounded_recursion_is_stopped() {
    let r = run_single(sig(vec![], vec![]), vec![Instruction::Call(0), Instruction::End], vec![]);
    assert!(matches!(r, Err(VmError::CallDepthExceeded)));
}

#[test]
fn call_to_unknown_index_is_not_found() {
    let r = run_single(sig(vec![], vec![]), vec![Instruction::Call(7), Instruction::End], vec![]);
    assert!(matches!(r, Err(VmError::FunctionNotFound)));
}

#[test]
fn registry_assigns_slots_in_order() {
    let mut imports = Imports::new();
    imports.add_import("env", "a", vec![], vec![], Constant(1));
    imports.add_import("env", "b", vec![ValType::I32], vec![], Constant(2));
    let a: &Import = imports.get_import("env", "a").unwrap();
    assert_eq!(a.index, 0);
    let b = imports.get_import("env", "b").unwrap();
    assert_eq!(b.index, 1);
    assert!(b.func_type == sig(vec![ValType::I32], vec![]));
    assert!(imports.get_import("env", "c").is_none());
}

#[test]
fn stack_persists_between_runs() {
    let mut imports: Imports<Constant> = Imports::new();
    let bytecode = compile_sections(
        &single_function(sig(vec![], vec![]), vec![], vec![Instruction::I32Const(3), Instruction::End]),
        &imports,
    )
    .unwrap();
    let mut vm = Vm::new();
    assert!(matches!(vm.run(&bytecode, "f", &mut imports), Ok(Return::Void)));
    assert!(matches!(vm.run(&bytecode, "f", &mut imports), Ok(Return::Void)));
    assert_eq!(vm.stack, vec![3, 3]);
}

#[test]
fn host_result_is_pushed_then_popped_with_declared_type() {
    let mut vm = Vm::new();
    vm.stack.push(7);
    let r = vm.after_host_call(&vec![ValType::I32], Ok(Return::Single(Value::new(ValType::I64, 42))));
    match r {
        Ok(Return::Single(v)) => assert_eq!(v, Value::new(ValType::I32, 42)),
        other => panic!("unexpected {:?}", other),
    }
    assert_eq!(vm.stack, vec![7]);
}

#[test]
fn host_error_is_passed_on() {
    let mut vm = Vm::new();
    let r = vm.after_host_call(&vec![], Err(HostError { message: "boom".to_string() }));
    match r {
        Err(VmError::Host(e)) => assert_eq!(e.message, "boom"),
        other => panic!("unexpected {:?}", other),
    }
}

#[test]
fn host_returning_too_little_underflows() {
    let mut vm = Vm::new();
    let r = vm.after_host_call(&vec![ValType::I32], Ok(Return::Void));
    assert!(matches!(r, Err(VmError::StackUnderflow)));
}
