//! Decoding of module bytes into sections, through wasmparser.
use vstd::prelude::*;

use crate::compiler::{
    compile_model, compile_sections, compiled_from, CodeEntry, CompileError, ExportDecl,
    ImportDecl, Section,
};
use crate::imports::{HostFunction, Imports};
use crate::table::{Bytecode, ExportKind};
use crate::{FuncType, Instruction, ValType};
use wasmparser::Export as WasmExport;
use wasmparser::Import as WasmImport;
use wasmparser::Operator as Op;
use wasmparser::ValType as WasmValType;

verus! {

#[verifier::external_type_specification]
#[verifier::external_body]
pub struct ExBinaryReaderError(wasmparser::BinaryReaderError);

#[verifier::external_type_specification]
#[verifier::external_body]
pub struct ExPayload<'a>(wasmparser::Payload<'a>);

#[verifier::external_type_specification]
#[verifier::external_body]
pub struct ExFunctionBody<'a>(wasmparser::FunctionBody<'a>);

#[verifier::external_type_specification]
#[verifier::external_body]
pub struct ExValType(WasmValType);

#[verifier::external_type_specification]
#[verifier::external_body]
pub struct ExImport<'a>(WasmImport<'a>);

#[verifier::external_type_specification]
#[verifier::external_body]
pub struct ExExport<'a>(WasmExport<'a>);

#[verifier::external_type_specification]
#[verifier::external_body]
pub struct ExOperator<'a>(wasmparser::Operator<'a>);

/// How many payloads wasmparser's parser finds in module bytes, or `None` where it fails.
pub uninterp spec fn payload_count_of(wasm: Seq<u8>) -> Option<nat>;

/// Relies on wasmparser's `Parser::parse_all`: the payloads of `wasm`, in order; whether it
/// fails and how many payloads it yields depend on the bytes alone.
#[verifier::external_body]
fn parse_payloads<'a>(wasm: &'a [u8]) -> (r: Result<Vec<wasmparser::Payload<'a>>, wasmparser::BinaryReaderError>)
    ensures
        r is Err ==> payload_count_of(wasm@) is None,
        r matches Ok(v) ==> payload_count_of(wasm@) == Some(v@.len()),
{
    wasmparser::Parser::new(0).parse_all(wasm).collect()
}

/// Relies on wasmparser's type section reader (`into_iter_err_on_gc_types`): the parameter and
/// result types of each declared function type, or `None` for another payload.
#[verifier::external_body]
fn payload_types(p: &wasmparser::Payload<'_>) -> Option<
    Result<Vec<(Vec<WasmValType>, Vec<WasmValType>)>, wasmparser::BinaryReaderError>,
> {
    match p {
        wasmparser::Payload::TypeSection(r) => Some(
            r.clone()
                .into_iter_err_on_gc_types()
                .map(|t| t.map(|t| (t.params().to_vec(), t.results().to_vec())))
                .collect(),
        ),
        _ => None,
    }
}

/// Relies on wasmparser's import section reader (`into_imports`): the imports one by one, or
/// `None` for another payload.
#[verifier::external_body]
fn payload_imports<'a>(p: &wasmparser::Payload<'a>) -> Option<Result<Vec<WasmImport<'a>>, wasmparser::BinaryReaderError>> {
    match p {
        wasmparser::Payload::ImportSection(r) => Some(r.clone().into_imports().collect()),
        _ => None,
    }
}

/// Relies on wasmparser's `Import` fields: module, name, and the type index of a function import.
#[verifier::external_body]
fn import_parts(i: &WasmImport<'_>) -> (String, String, Option<u32>) {
    let index = match i.ty {
        wasmparser::TypeRef::Func(t) => Some(t),
        wasmparser::TypeRef::FuncExact(t) => Some(t),
        _ => None,
    };
    (i.module.to_string(), i.name.to_string(), index)
}

/// Relies on wasmparser's function section reader: the type index of each defined function, or
/// `None` for another payload.
#[verifier::external_body]
fn payload_functions(p: &wasmparser::Payload<'_>) -> Option<Result<Vec<u32>, wasmparser::BinaryReaderError>> {
    match p {
        wasmparser::Payload::FunctionSection(r) => Some(r.clone().into_iter().collect()),
        _ => None,
    }
}

/// Relies on wasmparser's export section reader: the exports in order, or `None` for another
/// payload.
#[verifier::external_body]
fn payload_exports<'a>(p: &wasmparser::Payload<'a>) -> Option<Result<Vec<WasmExport<'a>>, wasmparser::BinaryReaderError>> {
    match p {
        wasmparser::Payload::ExportSection(r) => Some(r.clone().into_iter().collect()),
        _ => None,
    }
}

/// Relies on wasmparser's `Export` fields: name, kind and index.
#[verifier::external_body]
fn export_parts(e: &WasmExport<'_>) -> (String, ExportKind, u32) {
    let kind = match e.kind {
        wasmparser::ExternalKind::Func => ExportKind::Function,
        wasmparser::ExternalKind::FuncExact => ExportKind::Function,
        wasmparser::ExternalKind::Table => ExportKind::Table,
        wasmparser::ExternalKind::Memory => ExportKind::Memory,
        wasmparser::ExternalKind::Global => ExportKind::Global,
        wasmparser::ExternalKind::Tag => ExportKind::Tag,
    };
    (e.name.to_string(), kind, e.index)
}

/// Relies on wasmparser's `Payload::CodeSectionEntry`: the function body, or `None` for another
/// payload.
#[verifier::external_body]
fn payload_body<'a>(p: &wasmparser::Payload<'a>) -> Option<wasmparser::FunctionBody<'a>> {
    match p {
        wasmparser::Payload::CodeSectionEntry(b) => Some(b.clone()),
        _ => None,
    }
}

/// Relies on wasmparser's `FunctionBody::get_locals_reader`: the run-length encoded locals.
#[verifier::external_body]
fn body_locals(b: &wasmparser::FunctionBody<'_>) -> Result<Vec<(u32, WasmValType)>, wasmparser::BinaryReaderError> {
    b.get_locals_reader()?.into_iter().collect()
}

/// Relies on wasmparser's `FunctionBody::get_operators_reader`: the operators in order.
#[verifier::external_body]
fn body_operators<'a>(b: &wasmparser::FunctionBody<'a>) -> Result<Vec<wasmparser::Operator<'a>>, wasmparser::BinaryReaderError> {
    b.get_operators_reader()?.into_iter().collect()
}

/// Relies on wasmparser's `ValType` variants: the numeric types, `None` for vector and reference
/// types.
#[verifier::external_body]
fn val_type(t: &WasmValType) -> Option<ValType> {
    match t {
        WasmValType::I32 => Some(ValType::I32),
        WasmValType::I64 => Some(ValType::I64),
        WasmValType::F32 => Some(ValType::F32),
        WasmValType::F64 => Some(ValType::F64),
        _ => None,
    }
}

/// Relies on wasmparser's `Operator` variants: the 32-bit arithmetic operators.
#[verifier::external_body]
fn arith_instruction(op: &wasmparser::Operator<'_>) -> Option<Instruction> {
    match op {
        Op::I32Add => Some(Instruction::I32Add),
        Op::I32Sub => Some(Instruction::I32Sub),
        Op::I32Mul => Some(Instruction::I32Mul),
        Op::I32DivS => Some(Instruction::I32Div),
        Op::I32RemS => Some(Instruction::I32Rem),
        Op::I32And => Some(Instruction::I32And),
        Op::I32Or => Some(Instruction::I32Or),
        Op::I32Xor => Some(Instruction::I32Xor),
        Op::I32Shl => Some(Instruction::I32Shl),
        _ => None,
    }
}

/// Relies on wasmparser's `Operator` variants: constants, calls, locals, globals, `end` and
/// `return`, with their immediates.
#[verifier::external_body]
fn other_instruction(op: &wasmparser::Operator<'_>) -> Option<Instruction> {
    match op {
        Op::I32Const { value } => Some(Instruction::I32Const(*value)),
        Op::Call { function_index } => Some(Instruction::Call(*function_index)),
        Op::LocalGet { local_index } => Some(Instruction::LocalGet(*local_index)),
        Op::LocalSet { local_index } => Some(Instruction::LocalSet(*local_index)),
        Op::GlobalGet { global_index } => Some(Instruction::GlobalGet(*global_index)),
        Op::GlobalSet { global_index } => Some(Instruction::GlobalSet(*global_index)),
        Op::End => Some(Instruction::End),
        Op::Return => Some(Instruction::Return),
        _ => None,
    }
}

/// What one payload holds, as plain values: value types and operators outside this engine's
/// set are `None`.
#[derive(Debug)]
pub enum RawPayload {
    Types(Vec<(Vec<Option<ValType>>, Vec<Option<ValType>>)>),
    Imports(Vec<ImportDecl>),
    Functions(Vec<u32>),
    Exports(Vec<ExportDecl>),
    Code(Vec<(u32, Option<ValType>)>, Vec<Option<Instruction>>),
    Other,
}

/// Whether every type of `ts` is one of this engine's value types.
pub open spec fn all_known(ts: Seq<Option<ValType>>) -> bool
    decreases ts.len(),
{
    ts.len() == 0 || (all_known(ts.drop_last()) && ts.last() is Some)
}

/// The value types of `ts`.
pub open spec fn known(ts: Seq<Option<ValType>>) -> Seq<ValType> {
    ts.map_values(|o: Option<ValType>| o->Some_0)
}

/// Whether every function type of `ts` uses engine value types only.
pub open spec fn types_known(ts: Seq<(Vec<Option<ValType>>, Vec<Option<ValType>>)>) -> bool {
    forall|k: int| 0 <= k < ts.len() ==> all_known((#[trigger] ts[k]).0@) && all_known(ts[k].1@)
}

/// Whether every local of `ls` has an engine value type.
pub open spec fn locals_known(ls: Seq<(u32, Option<ValType>)>) -> bool {
    forall|k: int| 0 <= k < ls.len() ==> (#[trigger] ls[k]).1 is Some
}

/// Whether every operator of `ops` is in the instruction set.
pub open spec fn ops_known(ops: Seq<Option<Instruction>>) -> bool {
    forall|k: int| 0 <= k < ops.len() ==> (#[trigger] ops[k]) is Some
}

/// The error that turning `raw` into a section gives, if any.
pub open spec fn raw_error(raw: RawPayload) -> Option<CompileError> {
    match raw {
        RawPayload::Types(ts) => if types_known(ts@) {
            None
        } else {
            Some(CompileError::UnsupportedValueType)
        },
        RawPayload::Code(ls, ops) => if !locals_known(ls@) {
            Some(CompileError::UnsupportedValueType)
        } else if !ops_known(ops@) {
            Some(CompileError::UnsupportedOperator)
        } else {
            None
        },
        _ => None,
    }
}

/// Whether `s` is the section that `raw` holds.
pub open spec fn section_matches(raw: RawPayload, s: Section) -> bool {
    match raw {
        RawPayload::Types(ts) => (s matches Section::Types(fs) && fs@.len() == ts@.len() && forall|k: int|
            0 <= k < ts@.len() ==> (#[trigger] fs@[k]).params@ == known(ts@[k].0@)
                && fs@[k].results@ == known(ts@[k].1@)),
        RawPayload::Imports(ds) => s == Section::Imports(ds),
        RawPayload::Functions(ts) => s == Section::Functions(ts),
        RawPayload::Exports(ds) => s == Section::Exports(ds),
        RawPayload::Code(ls, ops) => (s matches Section::Code(c)
            && c.locals@ == ls@.map_values(|p: (u32, Option<ValType>)| (p.0, p.1->Some_0))
            && c.body@ == ops@.map_values(|o: Option<Instruction>| o->Some_0)),
        RawPayload::Other => s is Other,
    }
}

/// The value types of `ts`, if every one is an engine value type.
fn known_types(ts: &Vec<Option<ValType>>) -> (r: Option<Vec<ValType>>)
    ensures
        r is Some <==> all_known(ts@),
        r matches Some(v) ==> v@ == known(ts@),
{
    let mut out: Vec<ValType> = Vec::new();
    let mut k: usize = 0;
    while k < ts.len()
        invariant
            k <= ts@.len(),
            all_known(ts@.take(k as int)),
            out@ == known(ts@.take(k as int)),
        decreases ts@.len() - k,
    {
        proof {
            assert(ts@.take(k + 1).drop_last() =~= ts@.take(k as int));
        }
        match ts[k] {
            Some(t) => out.push(t),
            None => {
                proof {
                    lemma_unknown_stays(ts@, k + 1);
                }
                return None;
            },
        }
        k = k + 1;
        proof {
            assert(out@ =~= known(ts@.take(k as int)));
        }
    }
    proof {
        assert(ts@.take(k as int) =~= ts@);
    }
    Some(out)
}

/// A type outside the engine's set in a prefix of `ts` is one in `ts`.
proof fn lemma_unknown_stays(ts: Seq<Option<ValType>>, i: int)
    requires
        0 <= i <= ts.len(),
        !all_known(ts.take(i)),
    ensures
        !all_known(ts),
    decreases ts.len() - i,
{
    if i == ts.len() {
        assert(ts.take(i) =~= ts);
    } else {
        assert(ts.drop_last().take(i) =~= ts.take(i));
        lemma_unknown_stays(ts.drop_last(), i);
    }
}

/// The section that `raw` holds, or the error for a value type or operator outside the engine's
/// set (locals are checked before operators).
pub fn section_from_raw(raw: RawPayload) -> (r: Result<Section, CompileError>)
    ensures
        match raw_error(raw) {
            Some(e) => r == Err::<Section, CompileError>(e),
            None => (r matches Ok(s) && section_matches(raw, s)),
        },
{
    match raw {
        RawPayload::Types(ts) => {
            let mut fs: Vec<FuncType> = Vec::new();
            let mut k: usize = 0;
            while k < ts.len()
                invariant
                    raw == RawPayload::Types(ts),
                    k <= ts@.len(),
                    fs@.len() == k,
                    forall|j: int| 0 <= j < k ==> all_known((#[trigger] ts@[j]).0@) && all_known(ts@[j].1@),
                    forall|j: int|
                        0 <= j < k ==> (#[trigger] fs@[j]).params@ == known(ts@[j].0@)
                            && fs@[j].results@ == known(ts@[j].1@),
                decreases ts@.len() - k,
            {
                let params = known_types(&ts[k].0);
                let results = known_types(&ts[k].1);
                match (params, results) {
                    (Some(p), Some(q)) => {
                        let ghost kk = k as int;
                        proof {
                            assert(all_known(ts@[kk].0@) && all_known(ts@[kk].1@));
                        }
                        fs.push(FuncType::new(p, q));
                    },
                    _ => {
                        proof {
                            let kk = k as int;
                            assert(!(all_known(ts@[kk].0@) && all_known(ts@[kk].1@)));
                            assert(!types_known(ts@));
                            assert(raw_error(raw) == Some(CompileError::UnsupportedValueType));
                        }
                        return Err(CompileError::UnsupportedValueType);
                    },
                }
                k = k + 1;
            }
            Ok(Section::Types(fs))
        },
        RawPayload::Imports(ds) => Ok(Section::Imports(ds)),
        RawPayload::Functions(ts) => Ok(Section::Functions(ts)),
        RawPayload::Exports(ds) => Ok(Section::Exports(ds)),
        RawPayload::Code(ls, ops) => {
            let mut locals: Vec<(u32, ValType)> = Vec::new();
            let mut k: usize = 0;
            while k < ls.len()
                invariant
                    raw == RawPayload::Code(ls, ops),
                    k <= ls@.len(),
                    forall|j: int| 0 <= j < k ==> #[trigger] ls@[j].1 is Some,
                    locals@ == ls@.take(k as int).map_values(|p: (u32, Option<ValType>)| (p.0, p.1->Some_0)),
                decreases ls@.len() - k,
            {
                match ls[k].1 {
                    Some(t) => locals.push((ls[k].0, t)),
                    None => {
                        proof {
                            assert(!(ls@[k as int].1 is Some));
                            assert(!locals_known(ls@));
                        }
                        return Err(CompileError::UnsupportedValueType);
                    },
                }
                k = k + 1;
                proof {
                    assert(locals@ =~= ls@.take(k as int).map_values(|p: (u32, Option<ValType>)| (p.0, p.1->Some_0)));
                }
            }
            proof {
                assert(ls@.take(k as int) =~= ls@);
            }
            let mut body: Vec<Instruction> = Vec::new();
            let mut j: usize = 0;
            while j < ops.len()
                invariant
                    raw == RawPayload::Code(ls, ops),
                    j <= ops@.len(),
                    forall|i: int| 0 <= i < ls@.len() ==> #[trigger] ls@[i].1 is Some,
                    forall|i: int| 0 <= i < j ==> #[trigger] ops@[i] is Some,
                    body@ == ops@.take(j as int).map_values(|o: Option<Instruction>| o->Some_0),
                decreases ops@.len() - j,
            {
                match ops[j] {
                    Some(i) => body.push(i),
                    None => {
                        proof {
                            assert(!(ops@[j as int] is Some));
                            assert(locals_known(ls@));
                            assert(!ops_known(ops@));
                            assert(raw_error(raw) == Some(CompileError::UnsupportedOperator));
                        }
                        return Err(CompileError::UnsupportedOperator);
                    },
                }
                j = j + 1;
                proof {
                    assert(body@ =~= ops@.take(j as int).map_values(|o: Option<Instruction>| o->Some_0));
                }
            }
            proof {
                assert(ops@.take(j as int) =~= ops@);
            }
            Ok(Section::Code(CodeEntry { locals, body }))
        },
        RawPayload::Other => Ok(Section::Other),
    }
}

/// The types of `ts` as engine value types, `None` for the others.
fn raw_types(ts: &Vec<WasmValType>) -> (r: Vec<Option<ValType>>) {
    let mut out: Vec<Option<ValType>> = Vec::new();
    let mut k: usize = 0;
    while k < ts.len()
        decreases ts@.len() - k,
    {
        out.push(val_type(&ts[k]));
        k = k + 1;
    }
    out
}

/// The operator as an instruction, `None` outside the instruction set.
fn raw_instruction(op: &wasmparser::Operator<'_>) -> Option<Instruction> {
    match arith_instruction(op) {
        Some(i) => Some(i),
        None => other_instruction(op),
    }
}

/// What payload `p` holds as plain values; fails only where wasmparser's readers fail.
fn raw_payload(p: &wasmparser::Payload<'_>) -> (r: Result<RawPayload, CompileError>)
    ensures
        r matches Err(e) ==> e == CompileError::Malformed,
{
    match payload_types(p) {
        Some(Ok(list)) => {
            let mut ts: Vec<(Vec<Option<ValType>>, Vec<Option<ValType>>)> = Vec::new();
            let mut k: usize = 0;
            while k < list.len()
                decreases list@.len() - k,
            {
                ts.push((raw_types(&list[k].0), raw_types(&list[k].1)));
                k = k + 1;
            }
            return Ok(RawPayload::Types(ts));
        },
        Some(Err(_)) => return Err(CompileError::Malformed),
        None => {},
    }
    match payload_imports(p) {
        Some(Ok(list)) => {
            let mut decls: Vec<ImportDecl> = Vec::new();
            let mut k: usize = 0;
            while k < list.len()
                decreases list@.len() - k,
            {
                let (module, name, func_type_index) = import_parts(&list[k]);
                decls.push(ImportDecl { module, name, func_type_index });
                k = k + 1;
            }
            return Ok(RawPayload::Imports(decls));
        },
        Some(Err(_)) => return Err(CompileError::Malformed),
        None => {},
    }
    match payload_functions(p) {
        Some(Ok(list)) => return Ok(RawPayload::Functions(list)),
        Some(Err(_)) => return Err(CompileError::Malformed),
        None => {},
    }
    match payload_exports(p) {
        Some(Ok(list)) => {
            let mut decls: Vec<ExportDecl> = Vec::new();
            let mut k: usize = 0;
            while k < list.len()
                decreases list@.len() - k,
            {
                let (name, kind, index) = export_parts(&list[k]);
                decls.push(ExportDecl { name, kind, index });
                k = k + 1;
            }
            return Ok(RawPayload::Exports(decls));
        },
        Some(Err(_)) => return Err(CompileError::Malformed),
        None => {},
    }
    match payload_body(p) {
        Some(b) => {
            let raw_locals = match body_locals(&b) {
                Ok(l) => l,
                Err(_) => return Err(CompileError::Malformed),
            };
            let mut locals: Vec<(u32, Option<ValType>)> = Vec::new();
            let mut k: usize = 0;
            while k < raw_locals.len()
                decreases raw_locals@.len() - k,
            {
                locals.push((raw_locals[k].0, val_type(&raw_locals[k].1)));
                k = k + 1;
            }
            let raw_ops = match body_operators(&b) {
                Ok(o) => o,
                Err(_) => return Err(CompileError::Malformed),
            };
            let mut ops: Vec<Option<Instruction>> = Vec::new();
            let mut j: usize = 0;
            while j < raw_ops.len()
                decreases raw_ops@.len() - j,
            {
                ops.push(raw_instruction(&raw_ops[j]));
                j = j + 1;
            }
            Ok(RawPayload::Code(locals, ops))
        },
        None => Ok(RawPayload::Other),
    }
}

/// Decodes module bytes into the sections that the module lists, in order, one for each
/// payload that wasmparser's parser finds.
pub fn decode_sections(wasm: &[u8]) -> (r: Result<Vec<Section>, CompileError>)
    ensures
        payload_count_of(wasm@) is None ==> r == Err::<Vec<Section>, CompileError>(CompileError::Malformed),
        r matches Ok(s) ==> payload_count_of(wasm@) == Some(s@.len()),
        r matches Err(e) ==> e == CompileError::Malformed || e == CompileError::UnsupportedValueType
            || e == CompileError::UnsupportedOperator,
{
    let payloads = match parse_payloads(wasm) {
        Ok(p) => p,
        Err(_) => return Err(CompileError::Malformed),
    };
    let mut sections: Vec<Section> = Vec::new();
    let mut k: usize = 0;
    while k < payloads.len()
        invariant
            k <= payloads@.len(),
            sections@.len() == k,
            payload_count_of(wasm@) == Some(payloads@.len()),
        decreases payloads@.len() - k,
    {
        let raw = match raw_payload(&payloads[k]) {
            Ok(raw) => raw,
            Err(e) => return Err(e),
        };
        match section_from_raw(raw) {
            Ok(s) => sections.push(s),
            Err(e) => return Err(e),
        }
        k = k + 1;
    }
    Ok(sections)
}

/// Decodes and compiles module bytes, resolving the module's imports against `imports`: bytes
/// that wasmparser cannot split into payloads fail with `Malformed`, and a table is the
/// compilation of one section per payload.
pub fn compile_wasm<F: HostFunction>(wasm: &[u8], imports: &Imports<F>) -> (r: Result<Bytecode, CompileError>)
    ensures
        payload_count_of(wasm@) is None ==> r == Err::<Bytecode, CompileError>(CompileError::Malformed),
        r matches Ok(b) ==> exists|sections: Seq<Section>|
            Some(sections.len()) == payload_count_of(wasm@) && #[trigger] compiled_from(
                sections,
                imports.imports@,
                b,
            ),
        r matches Err(e) ==> e == CompileError::Malformed || e == CompileError::UnsupportedValueType
            || e == CompileError::UnsupportedOperator || exists|sections: Seq<Section>|
            Some(sections.len()) == payload_count_of(wasm@) && #[trigger] compile_model(
                sections,
                imports.imports@,
            ) == Err::<crate::compiler::Model, CompileError>(e),
{
    let sections = match decode_sections(wasm) {
        Ok(s) => s,
        Err(e) => return Err(e),
    };
    let r = compile_sections(&sections, imports);
    proof {
        if r is Ok {
            assert(compiled_from(sections@, imports.imports@, r->Ok_0));
        } else {
            assert(compile_model(sections@, imports.imports@) == Err::<crate::compiler::Model, CompileError>(r->Err_0));
        }
    }
    r
}

} // verus!
