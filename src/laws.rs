//! Properties of compilation and execution, proved over the specifications that the
//! compiler and the machine meet.
use vstd::prelude::*;

use crate::compiler::{compile_model, export_entries, import_one, CompileError, ImportDecl, Model, Section};
use crate::imports::{lookup_import, Import};
use crate::table::{Bytecode, ExportKind, FunctKind, Function};
use crate::vm::{below, call_defined, exec_body, exec_call, frame, popped, HostTrace, is_binop, outcome_matches, run_body, step, VmError};
use crate::{Instruction, Return, ValType, Value};

verus! {

/// An import of a function type is refused with `ImportNotFound` when the registry lacks its
/// (module, name), with `ImportSignatureMismatch` when the registered signature differs from
/// the declared one, and is accepted otherwise.
pub proof fn import_validation(m: Model, d: ImportDecl, reg: Seq<(String, String, Import)>, t: u32)
    requires
        d.func_type_index == Some(t),
        t < m.types.len(),
    ensures
        lookup_import(reg, d.module@, d.name@) is None ==> import_one(m, d, reg) == Err::<
            Model,
            CompileError,
        >(CompileError::ImportNotFound),
        lookup_import(reg, d.module@, d.name@) matches Some(i) ==> (i.func_type@ != m.types[t as int]
            <==> import_one(m, d, reg) == Err::<Model, CompileError>(
            CompileError::ImportSignatureMismatch,
        )),
        lookup_import(reg, d.module@, d.name@) matches Some(i) ==> (i.func_type@ == m.types[t as int]
            <==> import_one(m, d, reg) is Ok),
{
}

/// Pushing `a`, pushing `b` and running a 32-bit binary instruction leaves the native
/// two's-complement result of `a op b` on the stack: wrapping for addition, subtraction,
/// multiplication and shifts, and for division and remainder the result of the native checked
/// operation wherever it has one.
pub proof fn arithmetic_correctness(a: i32, b: i32, stack: Seq<i64>, locals: Seq<Value>)
    ensures
        run_body(seq![Instruction::I32Const(a), Instruction::I32Const(b), Instruction::I32Add], stack, locals)
            == Ok::<(Seq<i64>, Seq<Value>), VmError>((stack.push(a.wrapping_add(b) as i64), locals)),
        run_body(seq![Instruction::I32Const(a), Instruction::I32Const(b), Instruction::I32Sub], stack, locals)
            == Ok::<(Seq<i64>, Seq<Value>), VmError>((stack.push(a.wrapping_sub(b) as i64), locals)),
        run_body(seq![Instruction::I32Const(a), Instruction::I32Const(b), Instruction::I32Mul], stack, locals)
            == Ok::<(Seq<i64>, Seq<Value>), VmError>((stack.push(a.wrapping_mul(b) as i64), locals)),
        run_body(seq![Instruction::I32Const(a), Instruction::I32Const(b), Instruction::I32And], stack, locals)
            == Ok::<(Seq<i64>, Seq<Value>), VmError>((stack.push((a & b) as i64), locals)),
        run_body(seq![Instruction::I32Const(a), Instruction::I32Const(b), Instruction::I32Or], stack, locals)
            == Ok::<(Seq<i64>, Seq<Value>), VmError>((stack.push((a | b) as i64), locals)),
        run_body(seq![Instruction::I32Const(a), Instruction::I32Const(b), Instruction::I32Xor], stack, locals)
            == Ok::<(Seq<i64>, Seq<Value>), VmError>((stack.push((a ^ b) as i64), locals)),
        run_body(seq![Instruction::I32Const(a), Instruction::I32Const(b), Instruction::I32Shl], stack, locals)
            == Ok::<(Seq<i64>, Seq<Value>), VmError>((stack.push(a.wrapping_shl(b as u32) as i64), locals)),
        a.checked_div(b) matches Some(q) ==> run_body(
            seq![Instruction::I32Const(a), Instruction::I32Const(b), Instruction::I32Div],
            stack,
            locals,
        ) == Ok::<(Seq<i64>, Seq<Value>), VmError>((stack.push(q as i64), locals)),
        a.checked_rem(b) matches Some(m) ==> run_body(
            seq![Instruction::I32Const(a), Instruction::I32Const(b), Instruction::I32Rem],
            stack,
            locals,
        ) == Ok::<(Seq<i64>, Seq<Value>), VmError>((stack.push(m as i64), locals)),
{
    reveal_with_fuel(run_body, 4);
    let s2 = stack.push(a as i64).push(b as i64);
    assert(s2.take(s2.len() - 2) =~= stack);
    assert(s2.last() as i32 == b);
    assert(s2[s2.len() - 2] as i32 == a);
    let ops = seq![
        Instruction::I32Add,
        Instruction::I32Sub,
        Instruction::I32Mul,
        Instruction::I32Div,
        Instruction::I32Rem,
        Instruction::I32And,
        Instruction::I32Or,
        Instruction::I32Xor,
        Instruction::I32Shl,
    ];
    assert forall|k: int| 0 <= k < ops.len() implies run_body(
        seq![Instruction::I32Const(a), Instruction::I32Const(b), #[trigger] ops[k]],
        stack,
        locals,
    ) == step(ops[k], s2, locals) by {
        let body = seq![Instruction::I32Const(a), Instruction::I32Const(b), ops[k]];
        assert(body.drop_last() =~= seq![Instruction::I32Const(a), Instruction::I32Const(b)]);
        assert(body.drop_last().drop_last() =~= seq![Instruction::I32Const(a)]);
        assert(body.drop_last().drop_last().drop_last() =~= Seq::<Instruction>::empty());
    }
    assert(ops[0] == Instruction::I32Add);
    assert(ops[1] == Instruction::I32Sub);
    assert(ops[2] == Instruction::I32Mul);
    assert(ops[3] == Instruction::I32Div);
    assert(ops[4] == Instruction::I32Rem);
    assert(ops[5] == Instruction::I32And);
    assert(ops[6] == Instruction::I32Or);
    assert(ops[7] == Instruction::I32Xor);
    assert(ops[8] == Instruction::I32Shl);
}

/// A function of signature `(I32) -> I32` whose body is `LocalGet(0); I32Const(5); I32Add; End`
/// returns its argument plus five and leaves the stack below the argument as it was.
pub proof fn call_round_trip(arg: i64, stack: Seq<i64>)
    ensures
        call_defined(
            seq![ValType::I32],
            seq![ValType::I32],
            Seq::empty(),
            seq![
                Instruction::LocalGet(0),
                Instruction::I32Const(5),
                Instruction::I32Add,
                Instruction::End,
            ],
            stack.push(arg),
        ) == Ok::<(Seq<Value>, Seq<i64>), VmError>(
            (
                seq![Value { val_type: ValType::I32, value: ((arg as i32).wrapping_add(5)) as i64 }],
                stack,
            ),
        ),
{
    reveal_with_fuel(run_body, 5);
    let s = stack.push(arg);
    let body = seq![
        Instruction::LocalGet(0),
        Instruction::I32Const(5),
        Instruction::I32Add,
        Instruction::End,
    ];
    let args = crate::vm::popped(seq![ValType::I32], s);
    let fr = crate::vm::frame(args, Seq::empty());
    assert(crate::vm::below(s, 1) =~= stack);
    assert(fr[0] == Value { val_type: ValType::I32, value: arg });
    assert(body.drop_last().drop_last().drop_last().drop_last() =~= Seq::<Instruction>::empty());
    assert(body.drop_last().drop_last().drop_last() =~= seq![Instruction::LocalGet(0)]);
    assert(body.drop_last().drop_last() =~= seq![Instruction::LocalGet(0), Instruction::I32Const(5)]);
    let s3 = stack.push(arg).push(5);
    assert(s3.take(s3.len() - 2) =~= stack);
    let c = ((arg as i32).wrapping_add(5)) as i64;
    let after = stack.push(c);
    assert(run_body(body, stack, fr) == Ok::<(Seq<i64>, Seq<Value>), VmError>((after, fr)));
    assert(crate::vm::below(after, 1) =~= stack);
    assert(crate::vm::popped(seq![ValType::I32], after) =~= seq![Value { val_type: ValType::I32, value: c }]);
}

/// Only a function export resolves to a function: a name under another kind of export, or
/// under no export, runs nothing.
pub proof fn export_resolution(b: Bytecode, name: Seq<char>)
    ensures
        b.exports.lookup(name) is None ==> b.exported(name) is None,
        b.exports.lookup(name) matches Some(e) && e.kind != ExportKind::Function ==> b.exported(name) is None,
{
}

/// A binary instruction on fewer than two operands, a `LocalSet` on an empty stack, and a call
/// with fewer arguments on the stack than parameters all fail with `StackUnderflow`.
pub proof fn stack_underflow(
    instr: Instruction,
    stack: Seq<i64>,
    locals: Seq<Value>,
    params: Seq<ValType>,
    results: Seq<ValType>,
    decl_locals: Seq<ValType>,
    body: Seq<Instruction>,
)
    ensures
        is_binop(instr) && stack.len() < 2 ==> step(instr, stack, locals) == Err::<
            (Seq<i64>, Seq<Value>),
            VmError,
        >(VmError::StackUnderflow),
        instr is LocalSet && stack.len() == 0 ==> step(instr, stack, locals) == Err::<
            (Seq<i64>, Seq<Value>),
            VmError,
        >(VmError::StackUnderflow),
        stack.len() < params.len() ==> call_defined(params, results, decl_locals, body, stack)
            == Err::<(Seq<Value>, Seq<i64>), VmError>(VmError::StackUnderflow),
{
}

/// Compiling the same sections against the same registry gives the same function table and
/// the same export entries.
pub proof fn compile_determinism(
    sections: Seq<Section>,
    reg: Seq<(String, String, Import)>,
    b1: Bytecode,
    b2: Bytecode,
)
    requires
        compile_model(sections, reg) matches Ok(m) && b1.functions@.map_values(|f: Function| f@)
            == m.funcs && b1.exports.entries() == export_entries(sections),
        compile_model(sections, reg) matches Ok(m) && b2.functions@.map_values(|f: Function| f@)
            == m.funcs && b2.exports.entries() == export_entries(sections),
    ensures
        b1.functions@.map_values(|f: Function| f@) == b2.functions@.map_values(|f: Function| f@),
        b1.exports.entries() == b2.exports.entries(),
        forall|name: Seq<char>| #[trigger] b1.exports.lookup(name) == b2.exports.lookup(name),
{
}

/// Two runs of the same function of the same module table, from the same stack and with the
/// same number of host functions, give the same outcome and leave the same stack when the host
/// functions return the same values.
pub proof fn run_determinism(
    b: Bytecode,
    nslots: nat,
    f: Function,
    stack: Seq<i64>,
    t: HostTrace,
    r1: Result<Return, VmError>,
    after1: Seq<i64>,
    r2: Result<Return, VmError>,
    after2: Seq<i64>,
)
    requires
        outcome_matches(exec_call(b, nslots, f, stack, 0, t), r1, after1),
        outcome_matches(exec_call(b, nslots, f, stack, 0, t), r2, after2),
    ensures
        r1 is Ok <==> r2 is Ok,
        r1 is Ok ==> r1->Ok_0.values() == r2->Ok_0.values() && after1 == after2,
        r1 is Err ==> r1 == r2,
{
}

/// `GlobalGet`, `GlobalSet` and `Return` fail with `Unimplemented` when reached, whatever the
/// stack and the frame hold, and so does any body that reaches one.
pub proof fn unimplemented_instruction(
    instr: Instruction,
    prefix: Seq<Instruction>,
    stack: Seq<i64>,
    locals: Seq<Value>,
)
    requires
        instr is GlobalGet || instr is GlobalSet || instr is Return,
    ensures
        step(instr, stack, locals) == Err::<(Seq<i64>, Seq<Value>), VmError>(VmError::Unimplemented),
        run_body(prefix.push(instr), stack, locals) is Err,
{
    assert(prefix.push(instr).drop_last() =~= prefix);
}

/// A function that calls a host function of signature `() -> I32` and adds five to what it
/// returns gives that value plus five, and leaves the stack as it was.
pub proof fn host_call_round_trip(
    b: Bytecode,
    nslots: nat,
    f: Function,
    stack: Seq<i64>,
    slot: u32,
    v: Value,
)
    requires
        b.functions@.len() >= 1,
        b.functions@[0].func_type.params@ == Seq::<ValType>::empty(),
        b.functions@[0].func_type.results@ == seq![ValType::I32],
        b.functions@[0].kind == (FunctKind::Import { index: slot }),
        slot < nslots,
        f.func_type.params@ == Seq::<ValType>::empty(),
        f.func_type.results@ == seq![ValType::I32],
        f.kind matches FunctKind::Definition(def) && def.locals@.len() == 0 && def.body@ == seq![
            Instruction::Call(0),
            Instruction::I32Const(5),
            Instruction::I32Add,
            Instruction::End,
        ],
    ensures
        exec_call(
            b,
            nslots,
            f,
            stack,
            0,
            HostTrace::Body(
                seq![
                    HostTrace::Host(Ok(Return::Single(v))),
                    HostTrace::Nothing,
                    HostTrace::Nothing,
                    HostTrace::Nothing,
                ],
            ),
        ) == Ok::<(Seq<Value>, Seq<i64>), VmError>(
            (
                seq![Value { val_type: ValType::I32, value: ((v.value as i32).wrapping_add(5)) as i64 }],
                stack,
            ),
        ),
{
    reveal_with_fuel(exec_body, 5);
    let def = f.kind->Definition_0;
    let body = def.body@;
    let ts = seq![
        HostTrace::Host(Ok(Return::Single(v))),
        HostTrace::Nothing,
        HostTrace::Nothing,
        HostTrace::Nothing,
    ];
    let fr = frame(Seq::empty(), def.locals@);
    assert(below(stack, 0) =~= stack);
    assert(popped(Seq::<ValType>::empty(), stack) =~= Seq::<Value>::empty());
    assert(body.drop_last().drop_last().drop_last().drop_last() =~= Seq::<Instruction>::empty());
    assert(body.drop_last().drop_last().drop_last() =~= seq![Instruction::Call(0)]);
    assert(body.drop_last().drop_last() =~= seq![Instruction::Call(0), Instruction::I32Const(5)]);
    assert(ts.drop_last().drop_last().drop_last().drop_last() =~= Seq::<HostTrace>::empty());
    assert(ts.drop_last().drop_last().drop_last() =~= seq![ts[0]]);
    assert(ts.drop_last().drop_last() =~= seq![ts[0], ts[1]]);
    // the host call
    let s1 = stack + seq![v].map_values(|x: Value| x.value);
    assert(s1 =~= stack.push(v.value));
    let g = b.functions@[0];
    assert(popped(g.func_type.results@, s1) =~= seq![Value { val_type: ValType::I32, value: v.value }]);
    assert(below(s1, 1) =~= stack);
    assert(below(stack, g.func_type.params@.len()) =~= stack);
    assert(exec_call(b, nslots, g, stack, 1, ts[0]) == Ok::<(Seq<Value>, Seq<i64>), VmError>(
        (seq![Value { val_type: ValType::I32, value: v.value }], stack),
    ));
    let s2 = stack + seq![Value { val_type: ValType::I32, value: v.value }].map_values(|x: Value| x.value);
    assert(s2 =~= stack.push(v.value));
    let s3 = stack.push(v.value).push(5);
    assert(s3.take(s3.len() - 2) =~= stack);
    let c = ((v.value as i32).wrapping_add(5)) as i64;
    let after = stack.push(c);
    assert(exec_body(b, nslots, body, stack, fr, 0, ts) == Ok::<(Seq<i64>, Seq<Value>), VmError>((after, fr)));
    assert(below(after, 1) =~= stack);
    assert(popped(seq![ValType::I32], after) =~= seq![Value { val_type: ValType::I32, value: c }]);
}

} // verus!
