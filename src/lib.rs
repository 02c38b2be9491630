//! A small stack-machine engine for WebAssembly-style modules.
//!
//! Module bytes are decoded (through wasmparser) into sections, and the sections
//! are compiled into an immutable function table ([`Bytecode`]); a [`Vm`] then
//! runs an exported function of that table on a shared operand stack, calling
//! host functions registered in [`Imports`] for the module's imports.
use vstd::prelude::*;

pub mod compiler;
pub mod decode;
pub mod imports;
pub mod laws;
pub mod table;
pub mod vm;

pub use compiler::{
    compile_sections, resolve_import, BytecodeBuilder, CodeEntry, CompileError, ExportDecl,
    ImportDecl, Section,
};
pub use decode::{compile_wasm, decode_sections, section_from_raw, RawPayload};
pub use imports::{HostError, HostFunction, Import, Imports};
pub use table::{Bytecode, Export, ExportKind, Exports, FunctKind, Function, FunctionDefinition};
pub use vm::{Vm, VmError};

verus! {

/// The type tag of a value. Only `I32` carries arithmetic in this engine.
#[derive(Clone, Copy, Debug, PartialEq, Eq, Structural)]
pub enum ValType {
    I32,
    I64,
    F32,
    F64,
}

/// One instruction of a compiled function body.
#[derive(Clone, Copy, Debug, PartialEq, Eq, Structural)]
pub enum Instruction {
    I32Add,
    I32Sub,
    I32Mul,
    I32Div,
    I32Rem,
    I32And,
    I32Or,
    I32Xor,
    I32Shl,
    I32Const(i32),
    Call(u32),
    LocalGet(u32),
    LocalSet(u32),
    GlobalGet(u32),
    GlobalSet(u32),
    End,
    Return,
}

/// A function signature: parameter types and return types, in order.
#[derive(Clone, Debug)]
pub struct FuncType {
    pub params: Vec<ValType>,
    pub results: Vec<ValType>,
}

impl View for FuncType {
    type V = (Seq<ValType>, Seq<ValType>);

    open spec fn view(&self) -> (Seq<ValType>, Seq<ValType>) {
        (self.params@, self.results@)
    }
}

/// Whether two type lists are equal element by element.
fn same_types(a: &Vec<ValType>, b: &Vec<ValType>) -> (r: bool)
    ensures
        r == (a@ == b@),
{
    if a.len() != b.len() {
        return false;
    }
    let mut i: usize = 0;
    while i < a.len()
        invariant
            a@.len() == b@.len(),
            i <= a@.len(),
            forall|j: int| 0 <= j < i ==> a@[j] == b@[j],
        decreases a@.len() - i,
    {
        if a[i] != b[i] {
            return false;
        }
        i = i + 1;
    }
    proof {
        assert(a@ =~= b@);
    }
    true
}

impl FuncType {
    pub fn new(params: Vec<ValType>, results: Vec<ValType>) -> (r: Self)
        ensures
            r.params@ == params@,
            r.results@ == results@,
    {
        Self { params, results }
    }

    /// A copy with the same parameter and return types.
    pub fn duplicate(&self) -> (r: Self)
        ensures
            r@ == self@,
    {
        let mut params: Vec<ValType> = Vec::new();
        let mut i: usize = 0;
        while i < self.params.len()
            invariant
                i <= self.params@.len(),
                params@ == self.params@.take(i as int),
            decreases self.params@.len() - i,
        {
            params.push(self.params[i]);
            i = i + 1;
            proof {
                assert(params@ =~= self.params@.take(i as int));
            }
        }
        let mut results: Vec<ValType> = Vec::new();
        let mut j: usize = 0;
        while j < self.results.len()
            invariant
                j <= self.results@.len(),
                results@ == self.results@.take(j as int),
            decreases self.results@.len() - j,
        {
            results.push(self.results[j]);
            j = j + 1;
            proof {
                assert(results@ =~= self.results@.take(j as int));
            }
        }
        proof {
            assert(params@ =~= self.params@);
            assert(results@ =~= self.results@);
        }
        Self { params, results }
    }
}

impl PartialEq for FuncType {
    fn eq(&self, other: &FuncType) -> (r: bool) {
        same_types(&self.params, &other.params) && same_types(&self.results, &other.results)
    }
}

impl vstd::std_specs::cmp::PartialEqSpecImpl for FuncType {
    open spec fn obeys_eq_spec() -> bool {
        true
    }

    open spec fn eq_spec(&self, other: &FuncType) -> bool {
        self@ == other@
    }
}

/// A tagged value: the low 32 bits of `value` are the payload of an `I32`.
#[derive(Clone, Copy, Debug, PartialEq, Eq, Structural)]
pub struct Value {
    pub val_type: ValType,
    pub value: i64,
}

impl Value {
    pub fn new(val_type: ValType, value: i64) -> (r: Self)
        ensures
            r.val_type == val_type,
            r.value == value,
    {
        Self { val_type, value }
    }
}

/// What a call produces, shaped by the callee's declared return arity.
#[derive(Clone, Debug)]
pub enum Return {
    Void,
    Single(Value),
    Multiple(Vec<Value>),
}

impl Return {
    /// The returned values in order.
    pub open spec fn values(self) -> Seq<Value> {
        match self {
            Return::Void => Seq::empty(),
            Return::Single(v) => seq![v],
            Return::Multiple(vs) => vs@,
        }
    }

    /// The shape that a function with `n` return values gives.
    pub open spec fn has_arity(self, n: nat) -> bool {
        match self {
            Return::Void => n == 0,
            Return::Single(_) => n == 1,
            Return::Multiple(vs) => n > 1 && vs@.len() == n,
        }
    }
}

} // verus!
