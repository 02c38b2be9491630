//! The virtual machine: runs compiled functions on a shared operand stack.
use vstd::prelude::*;

use crate::imports::{HostError, HostFunction, Imports};
use crate::table::{Bytecode, FunctKind, Function};
use crate::{Instruction, Return, ValType, Value};

verus! {

/// The deepest nesting of calls that the machine accepts.
pub const MAX_CALL_DEPTH: u32 = 1000;

/// Why an execution failed.
#[derive(Clone, Debug)]
pub enum VmError {
    /// No function under that export name or table index, or no host function in an import's slot.
    FunctionNotFound,
    /// An instruction or a call needed more operands than the stack held.
    StackUnderflow,
    /// A local index beyond the current frame.
    LocalIndexOutOfRange,
    /// Signed division or remainder by zero.
    DivisionByZero,
    /// Signed division of the least 32-bit integer by -1.
    IntegerOverflow,
    /// An instruction that this machine does not execute.
    Unimplemented,
    /// Calls nested deeper than `MAX_CALL_DEPTH`.
    CallDepthExceeded,
    /// A failure raised by a host function.
    Host(HostError),
}

/// The eight binary 32-bit instructions.
pub open spec fn is_binop(instr: Instruction) -> bool {
    match instr {
        Instruction::I32Add | Instruction::I32Sub | Instruction::I32Mul | Instruction::I32Div
        | Instruction::I32Rem | Instruction::I32And | Instruction::I32Or | Instruction::I32Xor
        | Instruction::I32Shl => true,
        _ => false,
    }
}

/// The result of a binary 32-bit instruction on left operand `a` and right operand `b`.
pub open spec fn binop(instr: Instruction, a: i32, b: i32) -> Result<i32, VmError> {
    match instr {
        Instruction::I32Add => Ok(a.wrapping_add(b)),
        Instruction::I32Sub => Ok(a.wrapping_sub(b)),
        Instruction::I32Mul => Ok(a.wrapping_mul(b)),
        Instruction::I32Div => if b == 0 {
            Err(VmError::DivisionByZero)
        } else {
            match a.checked_div(b) {
                Some(q) => Ok(q),
                None => Err(VmError::IntegerOverflow),
            }
        },
        Instruction::I32Rem => if b == 0 {
            Err(VmError::DivisionByZero)
        } else if a == i32::MIN && b == -1 {
            Ok(0)
        } else {
            match a.checked_rem(b) {
                Some(m) => Ok(m),
                None => Ok(0),
            }
        },
        Instruction::I32And => Ok(a & b),
        Instruction::I32Or => Ok(a | b),
        Instruction::I32Xor => Ok(a ^ b),
        _ => Ok(a.wrapping_shl(b as u32)),
    }
}

/// The effect of one instruction other than `Call` on the stack and the local frame.
pub open spec fn step(instr: Instruction, stack: Seq<i64>, locals: Seq<Value>) -> Result<
    (Seq<i64>, Seq<Value>),
    VmError,
> {
    if is_binop(instr) {
        if stack.len() < 2 {
            Err(VmError::StackUnderflow)
        } else {
            let b = stack.last() as i32;
            let a = stack[stack.len() - 2] as i32;
            match binop(instr, a, b) {
                Ok(c) => Ok((stack.take(stack.len() - 2).push(c as i64), locals)),
                Err(e) => Err(e),
            }
        }
    } else {
        match instr {
            Instruction::I32Const(v) => Ok((stack.push(v as i64), locals)),
            Instruction::LocalGet(i) => if i < locals.len() {
                Ok((stack.push(locals[i as int].value), locals))
            } else {
                Err(VmError::LocalIndexOutOfRange)
            },
            Instruction::LocalSet(i) => if stack.len() == 0 {
                Err(VmError::StackUnderflow)
            } else if i >= locals.len() {
                Err(VmError::LocalIndexOutOfRange)
            } else {
                Ok(
                    (
                        stack.drop_last(),
                        locals.update(
                            i as int,
                            Value { val_type: locals[i as int].val_type, value: stack.last() },
                        ),
                    ),
                )
            },
            Instruction::End => Ok((stack, locals)),
            _ => Err(VmError::Unimplemented),
        }
    }
}

/// The effect of a sequence of instructions free of `Call`, run in order.
pub open spec fn run_body(body: Seq<Instruction>, stack: Seq<i64>, locals: Seq<Value>) -> Result<
    (Seq<i64>, Seq<Value>),
    VmError,
>
    decreases body.len(),
{
    if body.len() == 0 {
        Ok((stack, locals))
    } else {
        match run_body(body.drop_last(), stack, locals) {
            Ok((s, l)) => step(body.last(), s, l),
            Err(e) => Err(e),
        }
    }
}

/// A failure part way through a body is the failure of the whole body.
proof fn lemma_run_body_failure(
    body: Seq<Instruction>,
    stack: Seq<i64>,
    locals: Seq<Value>,
    i: int,
)
    requires
        0 <= i <= body.len(),
        run_body(body.take(i), stack, locals) is Err,
    ensures
        run_body(body, stack, locals) == run_body(body.take(i), stack, locals),
    decreases body.len() - i,
{
    if i == body.len() {
        assert(body.take(i) =~= body);
    } else {
        assert(body.drop_last().take(i) =~= body.take(i));
        lemma_run_body_failure(body.drop_last(), stack, locals, i);
    }
}

/// Whether `body` holds no `Call`.
pub open spec fn call_free(body: Seq<Instruction>) -> bool {
    forall|i: int| 0 <= i < body.len() ==> !(#[trigger] body[i] is Call)
}

/// The values popped for `types`, the first from the top of `stack`, each tagged by its type.
pub open spec fn popped(types: Seq<ValType>, stack: Seq<i64>) -> Seq<Value>
    recommends
        types.len() <= stack.len(),
{
    Seq::new(
        types.len(),
        |k: int| Value { val_type: types[k], value: stack[stack.len() - 1 - k] },
    )
}

/// `stack` without its top `n` values.
pub open spec fn below(stack: Seq<i64>, n: nat) -> Seq<i64> {
    stack.take(stack.len() - n)
}

/// A fresh frame: the arguments, then each declared local set to zero. Local `i` below the
/// parameter count holds the `i`-th value popped for the call, the first from the top of the
/// stack, tagged with the `i`-th parameter type.
pub open spec fn frame(args: Seq<Value>, locals: Seq<ValType>) -> Seq<Value> {
    args + Seq::new(locals.len(), |k: int| Value { val_type: locals[k], value: 0 })
}

/// The outcome of calling a defined function whose body holds no `Call`: the returned values
/// and the stack after the call.
pub open spec fn call_defined(
    params: Seq<ValType>,
    results: Seq<ValType>,
    locals: Seq<ValType>,
    body: Seq<Instruction>,
    stack: Seq<i64>,
) -> Result<(Seq<Value>, Seq<i64>), VmError> {
    if stack.len() < params.len() {
        Err(VmError::StackUnderflow)
    } else {
        let args = popped(params, stack);
        match run_body(body, below(stack, params.len()), frame(args, locals)) {
            Err(e) => Err(e),
            Ok((s, _)) => if s.len() < results.len() {
                Err(VmError::StackUnderflow)
            } else {
                Ok((popped(results, s), below(s, results.len())))
            },
        }
    }
}

/// What the host functions returned during one call, shaped like the calls themselves: the
/// result of a host function, or one entry per executed instruction of a defined function.
pub enum HostTrace {
    Host(Result<Return, HostError>),
    Body(Seq<HostTrace>),
    Nothing,
}

/// The per-instruction entries of a trace of a defined function.
pub open spec fn body_traces(t: HostTrace) -> Seq<HostTrace> {
    match t {
        HostTrace::Body(ts) => ts,
        _ => Seq::empty(),
    }
}

/// The returned values and the stack after popping `results` from `s`.
pub open spec fn finish(results: Seq<ValType>, s: Seq<i64>) -> Result<(Seq<Value>, Seq<i64>), VmError> {
    if s.len() < results.len() {
        Err(VmError::StackUnderflow)
    } else {
        Ok((popped(results, s), below(s, results.len())))
    }
}

/// The outcome of a host function's result `hr` for a callee declaring `results`, with `s` the
/// stack once its arguments were popped.
pub open spec fn after_host(results: Seq<ValType>, s: Seq<i64>, hr: Result<Return, HostError>) -> Result<
    (Seq<Value>, Seq<i64>),
    VmError,
> {
    match hr {
        Err(e) => Err(VmError::Host(e)),
        Ok(ret) => finish(results, s + ret.values().map_values(|v: Value| v.value)),
    }
}

/// The effect of one instruction at call depth `depth`, where `nslots` host functions are
/// registered and `t` is what the host functions returned while it ran.
pub open spec fn exec_instr(
    b: Bytecode,
    nslots: nat,
    instr: Instruction,
    stack: Seq<i64>,
    locals: Seq<Value>,
    depth: int,
    t: HostTrace,
) -> Result<(Seq<i64>, Seq<Value>), VmError>
    decreases MAX_CALL_DEPTH - depth, 0int, 0int,
{
    match instr {
        Instruction::Call(index) => if index >= b.functions@.len() {
            Err(VmError::FunctionNotFound)
        } else if depth >= MAX_CALL_DEPTH {
            Err(VmError::CallDepthExceeded)
        } else {
            match exec_call(b, nslots, b.functions@[index as int], stack, depth + 1, t) {
                Err(e) => Err(e),
                Ok((vals, s)) => Ok((s + vals.map_values(|v: Value| v.value), locals)),
            }
        },
        _ => step(instr, stack, locals),
    }
}

/// The effect of a sequence of instructions run in order; `ts` holds one trace per instruction.
pub open spec fn exec_body(
    b: Bytecode,
    nslots: nat,
    body: Seq<Instruction>,
    stack: Seq<i64>,
    locals: Seq<Value>,
    depth: int,
    ts: Seq<HostTrace>,
) -> Result<(Seq<i64>, Seq<Value>), VmError>
    decreases MAX_CALL_DEPTH - depth, 1int, body.len(),
{
    if body.len() == 0 {
        Ok((stack, locals))
    } else {
        match exec_body(b, nslots, body.drop_last(), stack, locals, depth, ts.drop_last()) {
            Ok((s, l)) => exec_instr(b, nslots, body.last(), s, l, depth, ts.last()),
            Err(e) => Err(e),
        }
    }
}

/// The outcome of calling `f` at call depth `depth`: the returned values and the stack after
/// the call, given what the host functions returned (`t`).
pub open spec fn exec_call(
    b: Bytecode,
    nslots: nat,
    f: Function,
    stack: Seq<i64>,
    depth: int,
    t: HostTrace,
) -> Result<(Seq<Value>, Seq<i64>), VmError>
    decreases MAX_CALL_DEPTH - depth, 2int, 0int,
{
    let params = f.func_type.params@;
    let results = f.func_type.results@;
    if stack.len() < params.len() {
        Err(VmError::StackUnderflow)
    } else {
        match f.kind {
            FunctKind::Import { index } => if index >= nslots {
                Err(VmError::FunctionNotFound)
            } else {
                match t {
                    HostTrace::Host(hr) => after_host(results, below(stack, params.len()), hr),
                    _ => Err(VmError::FunctionNotFound),
                }
            },
            FunctKind::Definition(def) => match exec_body(
                b,
                nslots,
                def.body@,
                below(stack, params.len()),
                frame(popped(params, stack), def.locals@),
                depth,
                body_traces(t),
            ) {
                Err(e) => Err(e),
                Ok((s, _)) => finish(results, s),
            },
        }
    }
}

/// A failure part way through a body is the failure of the whole body.
proof fn lemma_exec_body_stops(
    b: Bytecode,
    nslots: nat,
    body: Seq<Instruction>,
    stack: Seq<i64>,
    locals: Seq<Value>,
    depth: int,
    ts: Seq<HostTrace>,
    i: int,
)
    requires
        0 <= i <= body.len(),
        ts.len() == body.len(),
        exec_body(b, nslots, body.take(i), stack, locals, depth, ts.take(i)) is Err,
    ensures
        exec_body(b, nslots, body, stack, locals, depth, ts) == exec_body(
            b,
            nslots,
            body.take(i),
            stack,
            locals,
            depth,
            ts.take(i),
        ),
    decreases body.len() - i,
{
    if i == body.len() {
        assert(body.take(i) =~= body);
        assert(ts.take(i) =~= ts);
    } else {
        assert(body.drop_last().take(i) =~= body.take(i));
        assert(ts.drop_last().take(i) =~= ts.take(i));
        lemma_exec_body_stops(b, nslots, body.drop_last(), stack, locals, depth, ts.drop_last(), i);
    }
}

/// Whether `r`, `after` and `after_locals` are the outcome `expected` of an instruction.
pub open spec fn instr_matches(
    expected: Result<(Seq<i64>, Seq<Value>), VmError>,
    r: Result<(), VmError>,
    after: Seq<i64>,
    after_locals: Seq<Value>,
) -> bool {
    match expected {
        Ok((s, l)) => (r is Ok && after == s && after_locals == l),
        Err(e) => r == Err::<(), VmError>(e),
    }
}

/// What holds of every call of `f` on `stack` that gave `r` and left `after`.
pub open spec fn call_outcome(f: Function, stack: Seq<i64>, r: Result<Return, VmError>, after: Seq<i64>) -> bool {
    let params = f.func_type.params@;
    let results = f.func_type.results@;
    &&& stack.len() < params.len() ==> r == Err::<Return, VmError>(VmError::StackUnderflow)
    &&& r matches Ok(ret) ==> (ret.has_arity(results.len()) && forall|k: int|
        0 <= k < results.len() ==> (#[trigger] ret.values()[k]).val_type == results[k])
    &&& f.kind matches FunctKind::Definition(def) ==> (call_free(def.body@) ==> outcome_matches(
        call_defined(params, results, def.locals@, def.body@, stack),
        r,
        after,
    ))
}

/// Whether `r` and `after` are the returned values and the stack that `expected` gives.
pub open spec fn outcome_matches(
    expected: Result<(Seq<Value>, Seq<i64>), VmError>,
    r: Result<Return, VmError>,
    after: Seq<i64>,
) -> bool {
    match expected {
        Ok((vals, s)) => (r matches Ok(ret) && ret.values() == vals && after == s),
        Err(e) => r == Err::<Return, VmError>(e),
    }
}

/// A stack machine whose operand stack persists across runs.
pub struct Vm {
    pub stack: Vec<i64>,
}

impl Vm {
    pub fn new() -> (r: Self)
        ensures
            r.stack@.len() == 0,
    {
        Vm { stack: Vec::new() }
    }

    /// Runs the function that `name` exports, taking its arguments from the stack.
    pub fn run<F: HostFunction>(&mut self, bytecode: &Bytecode, name: &str, imports: &mut Imports<F>) -> (r: Result<Return, VmError>)
        ensures
            bytecode.exported(name@) is None ==> r == Err::<Return, VmError>(VmError::FunctionNotFound)
                && final(self).stack@ == old(self).stack@ && *final(imports) == *old(imports),
            bytecode.exported(name@) matches Some(f) ==> call_outcome(f, old(self).stack@, r, final(self).stack@),
            bytecode.exported(name@) matches Some(f) ==> exists|t: HostTrace| outcome_matches(
                #[trigger] exec_call(*bytecode, old(imports).import_fns@.len(), f, old(self).stack@, 0, t),
                r,
                final(self).stack@,
            ),
            final(imports).imports@ == old(imports).imports@,
            final(imports).import_fns@.len() == old(imports).import_fns@.len(),
    {
        match bytecode.get_function(name) {
            Some(function) => {
                let (r, t) = self.execute_fn(bytecode, function, imports, 0);
                proof {
                    let tt = t@;
                    assert(outcome_matches(
                        exec_call(*bytecode, old(imports).import_fns@.len(), *function, old(self).stack@, 0, tt),
                        r,
                        self.stack@,
                    ));
                }
                r
            },
            None => Err(VmError::FunctionNotFound),
        }
    }

    /// Pops one value per type in `types`, the first from the top, each tagged by its type.
    fn pop_values(&mut self, types: &Vec<ValType>) -> (r: Result<Vec<Value>, VmError>)
        ensures
            old(self).stack@.len() < types@.len() ==> r == Err::<Vec<Value>, VmError>(VmError::StackUnderflow)
                && final(self).stack@ == old(self).stack@,
            old(self).stack@.len() >= types@.len() ==> (r matches Ok(vals) && vals@ == popped(types@, old(self).stack@)
                && final(self).stack@ == below(old(self).stack@, types@.len())),
    {
        if self.stack.len() < types.len() {
            return Err(VmError::StackUnderflow);
        }
        let ghost start = self.stack@;
        let mut vals: Vec<Value> = Vec::new();
        let mut k: usize = 0;
        while k < types.len()
            invariant
                k <= types@.len(),
                types@.len() <= start.len(),
                self.stack@ == start.take(start.len() - k),
                vals@ == popped(types@.take(k as int), start),
            decreases types@.len() - k,
        {
            let v = self.stack.pop().unwrap();
            vals.push(Value { val_type: types[k], value: v });
            k = k + 1;
            proof {
                assert(self.stack@ =~= start.take(start.len() - k));
                assert(vals@ =~= popped(types@.take(k as int), start));
            }
        }
        proof {
            assert(types@.take(k as int) =~= types@);
        }
        Ok(vals)
    }

    /// Pushes `values` in order, the last ending on top.
    fn push_values(&mut self, values: &Vec<Value>)
        ensures
            final(self).stack@ == old(self).stack@ + values@.map_values(|v: Value| v.value),
    {
        let mut k: usize = 0;
        while k < values.len()
            invariant
                k <= values@.len(),
                self.stack@ == old(self).stack@ + values@.take(k as int).map_values(|v: Value| v.value),
            decreases values@.len() - k,
        {
            self.stack.push(values[k].value);
            k = k + 1;
            proof {
                assert(self.stack@ =~= old(self).stack@ + values@.take(k as int).map_values(|v: Value| v.value));
            }
        }
        proof {
            assert(values@.take(k as int) =~= values@);
        }
    }

    /// Pushes the values that a call returned, in order.
    fn push_return(&mut self, ret: &Return)
        ensures
            final(self).stack@ == old(self).stack@ + ret.values().map_values(|v: Value| v.value),
    {
        match ret {
            Return::Void => {
                proof {
                    assert(self.stack@ =~= self.stack@ + Seq::<Value>::empty().map_values(
                        |v: Value| v.value,
                    ));
                }
            },
            Return::Single(v) => {
                let ghost before = self.stack@;
                self.stack.push(v.value);
                proof {
                    assert(self.stack@ =~= before + seq![*v].map_values(|v: Value| v.value));
                }
            },
            Return::Multiple(vs) => {
                self.push_values(vs);
            },
        }
    }

    /// Pops `results` from the stack as the values of a call.
    fn pop_return(&mut self, results: &Vec<ValType>) -> (r: Result<Return, VmError>)
        ensures
            outcome_matches(finish(results@, old(self).stack@), r, final(self).stack@),
            r matches Ok(ret) ==> (ret.has_arity(results@.len()) && forall|k: int|
                0 <= k < results@.len() ==> (#[trigger] ret.values()[k]).val_type == results@[k]),
            r is Err ==> final(self).stack@ == old(self).stack@,
    {
        let vals = match self.pop_values(results) {
            Ok(v) => v,
            Err(e) => return Err(e),
        };
        if results.len() == 0 {
            proof {
                assert(vals@ =~= Seq::<Value>::empty());
            }
            Ok(Return::Void)
        } else if results.len() == 1 {
            proof {
                assert(seq![vals@[0]] =~= vals@);
            }
            Ok(Return::Single(vals[0]))
        } else {
            Ok(Return::Multiple(vals))
        }
    }

    /// What follows a host function's call: its result `hr` is pushed onto the stack and the
    /// declared `results` are popped, or its failure is passed on.
    pub fn after_host_call(&mut self, results: &Vec<ValType>, hr: Result<Return, HostError>) -> (r: Result<
        Return,
        VmError,
    >)
        ensures
            outcome_matches(after_host(results@, old(self).stack@, hr), r, final(self).stack@),
            r matches Ok(ret) ==> (ret.has_arity(results@.len()) && forall|k: int|
                0 <= k < results@.len() ==> (#[trigger] ret.values()[k]).val_type == results@[k]),
    {
        match hr {
            Ok(ret) => {
                self.push_return(&ret);
                self.pop_return(results)
            },
            Err(e) => Err(VmError::Host(e)),
        }
    }

    /// Calls `function`: pops its arguments, runs it, and pops its declared results. Also gives
    /// what the host functions returned during the call.
    fn execute_fn<F: HostFunction>(
        &mut self,
        bytecode: &Bytecode,
        function: &Function,
        imports: &mut Imports<F>,
        depth: u32,
    ) -> (res: (Result<Return, VmError>, Ghost<HostTrace>))
        requires
            depth <= MAX_CALL_DEPTH,
        ensures
            call_outcome(*function, old(self).stack@, res.0, final(self).stack@),
            outcome_matches(
                exec_call(*bytecode, old(imports).import_fns@.len(), *function, old(self).stack@, depth as int, res.1@),
                res.0,
                final(self).stack@,
            ),
            final(imports).imports@ == old(imports).imports@,
            final(imports).import_fns@.len() == old(imports).import_fns@.len(),
        decreases MAX_CALL_DEPTH - depth, 1nat,
    {
        let ghost start = self.stack@;
        let ghost nslots = imports.import_fns@.len();
        let args = match self.pop_values(&function.func_type.params) {
            Ok(a) => a,
            Err(e) => return (Err(e), Ghost(HostTrace::Nothing)),
        };
        match &function.kind {
            FunctKind::Import { index } => {
                if (*index as usize) >= imports.import_fns.len() {
                    return (Err(VmError::FunctionNotFound), Ghost(HostTrace::Nothing));
                }
                let hr = imports.invoke_import(*index as usize, args);
                let ghost trace = HostTrace::Host(hr);
                let r = self.after_host_call(&function.func_type.results, hr);
                (r, Ghost(trace))
            },
            FunctKind::Definition(def) => {
                let mut locals = args;
                let mut j: usize = 0;
                while j < def.locals.len()
                    invariant
                        j <= def.locals@.len(),
                        start.len() >= function.func_type.params@.len(),
                        start == old(self).stack@,
                        function.kind == FunctKind::Definition(*def),
                        locals@ == frame(
                            popped(function.func_type.params@, start),
                            def.locals@.take(j as int),
                        ),
                    decreases def.locals@.len() - j,
                {
                    locals.push(Value { val_type: def.locals[j], value: 0 });
                    j = j + 1;
                    proof {
                        assert(locals@ =~= frame(
                            popped(function.func_type.params@, start),
                            def.locals@.take(j as int),
                        ));
                    }
                }
                proof {
                    assert(def.locals@.take(j as int) =~= def.locals@);
                }
                let ghost frame0 = locals@;
                let ghost stack0 = self.stack@;
                let ghost mut ts: Seq<HostTrace> = Seq::empty();
                let mut i: usize = 0;
                while i < def.body.len()
                    invariant
                        i <= def.body@.len(),
                        ts.len() == i,
                        depth <= MAX_CALL_DEPTH,
                        start.len() >= function.func_type.params@.len(),
                        start == old(self).stack@,
                        function.kind == FunctKind::Definition(*def),
                        stack0 == below(start, function.func_type.params@.len()),
                        frame0 == frame(popped(function.func_type.params@, start), def.locals@),
                        imports.imports@ == old(imports).imports@,
                        imports.import_fns@.len() == nslots,
                        nslots == old(imports).import_fns@.len(),
                        call_free(def.body@) ==> run_body(def.body@.take(i as int), stack0, frame0)
                            == Ok::<(Seq<i64>, Seq<Value>), VmError>((self.stack@, locals@)),
                        exec_body(*bytecode, nslots, def.body@.take(i as int), stack0, frame0, depth as int, ts)
                            == Ok::<(Seq<i64>, Seq<Value>), VmError>((self.stack@, locals@)),
                    decreases def.body@.len() - i,
                {
                    proof {
                        assert(def.body@.take(i + 1).drop_last() =~= def.body@.take(i as int));
                        assert(def.body@.take(i + 1).last() == def.body@[i as int]);
                    }
                    let ghost stack_before = self.stack@;
                    let ghost locals_before = locals@;
                    let (r, t) = self.execute_instruction(&def.body[i], &mut locals, bytecode, imports, depth);
                    proof {
                        assert(ts.push(t@).drop_last() =~= ts);
                        ts = ts.push(t@);
                    }
                    match r {
                        Ok(()) => {},
                        Err(e) => {
                            let ghost full = ts + Seq::new((def.body@.len() - ts.len()) as nat, |k: int| HostTrace::Nothing);
                            proof {
                                if call_free(def.body@) {
                                    assert(!(def.body@[i as int] is Call));
                                    assert(run_body(def.body@.take(i + 1), stack0, frame0) == step(
                                        def.body@[i as int],
                                        stack_before,
                                        locals_before,
                                    ));
                                    lemma_run_body_failure(def.body@, stack0, frame0, i + 1);
                                }
                                assert(full.take(i + 1) =~= ts);
                                lemma_exec_body_stops(*bytecode, nslots, def.body@, stack0, frame0, depth as int, full, i + 1);
                            }
                            return (Err(e), Ghost(HostTrace::Body(full)));
                        },
                    }
                    i = i + 1;
                }
                proof {
                    assert(def.body@.take(i as int) =~= def.body@);
                }
                let r = self.pop_return(&function.func_type.results);
                (r, Ghost(HostTrace::Body(ts)))
            },
        }
    }

    /// Executes one instruction against the stack and the current frame. Also gives what the
    /// host functions returned while it ran.
    fn execute_instruction<F: HostFunction>(
        &mut self,
        instruction: &Instruction,
        locals: &mut Vec<Value>,
        bytecode: &Bytecode,
        imports: &mut Imports<F>,
        depth: u32,
    ) -> (res: (Result<(), VmError>, Ghost<HostTrace>))
        requires
            depth <= MAX_CALL_DEPTH,
        ensures
            instr_matches(
                exec_instr(*bytecode, old(imports).import_fns@.len(), *instruction, old(self).stack@, old(locals)@, depth as int, res.1@),
                res.0,
                final(self).stack@,
                final(locals)@,
            ),
            !(*instruction is Call) ==> match step(*instruction, old(self).stack@, old(locals)@) {
                Ok((s, l)) => (res.0 is Ok && final(self).stack@ == s && final(locals)@ == l),
                Err(e) => res.0 == Err::<(), VmError>(e),
            },
            !(*instruction is Call) ==> *final(imports) == *old(imports),
            *instruction matches Instruction::Call(index) && index >= bytecode.functions@.len()
                ==> res.0 == Err::<(), VmError>(VmError::FunctionNotFound)
                && final(self).stack@ == old(self).stack@ && final(locals)@ == old(locals)@
                && *final(imports) == *old(imports),
            final(imports).imports@ == old(imports).imports@,
            final(imports).import_fns@.len() == old(imports).import_fns@.len(),
        decreases MAX_CALL_DEPTH - depth, 0nat,
    {
        match instruction {
            Instruction::I32Const(value) => {
                self.stack.push(*value as i64);
                (Ok(()), Ghost(HostTrace::Nothing))
            },
            Instruction::Call(index) => {
                let function = match bytecode.get_function_by_index(*index as usize) {
                    Some(f) => f,
                    None => return (Err(VmError::FunctionNotFound), Ghost(HostTrace::Nothing)),
                };
                if depth >= MAX_CALL_DEPTH {
                    return (Err(VmError::CallDepthExceeded), Ghost(HostTrace::Nothing));
                }
                let (r, t) = self.execute_fn(bytecode, function, imports, depth + 1);
                match r {
                    Ok(ret) => {
                        self.push_return(&ret);
                        (Ok(()), t)
                    },
                    Err(e) => (Err(e), t),
                }
            },
            Instruction::LocalGet(index) => {
                if (*index as usize) < locals.len() {
                    self.stack.push(locals[*index as usize].value);
                    (Ok(()), Ghost(HostTrace::Nothing))
                } else {
                    (Err(VmError::LocalIndexOutOfRange), Ghost(HostTrace::Nothing))
                }
            },
            Instruction::LocalSet(index) => {
                if self.stack.len() == 0 {
                    return (Err(VmError::StackUnderflow), Ghost(HostTrace::Nothing));
                }
                if (*index as usize) >= locals.len() {
                    return (Err(VmError::LocalIndexOutOfRange), Ghost(HostTrace::Nothing));
                }
                let v = self.stack.pop().unwrap();
                let i = *index as usize;
                let t = locals[i].val_type;
                locals.set(i, Value { val_type: t, value: v });
                (Ok(()), Ghost(HostTrace::Nothing))
            },
            Instruction::End => (Ok(()), Ghost(HostTrace::Nothing)),
            Instruction::GlobalGet(_) | Instruction::GlobalSet(_) | Instruction::Return => (
                Err(VmError::Unimplemented),
                Ghost(HostTrace::Nothing),
            ),
            _ => (self.execute_binop(instruction), Ghost(HostTrace::Nothing)),
        }
    }

    /// Executes a binary 32-bit instruction: pops the right operand, then the left one.
    fn execute_binop(&mut self, instruction: &Instruction) -> (r: Result<(), VmError>)
        requires
            is_binop(*instruction),
        ensures
            match step(*instruction, old(self).stack@, Seq::empty()) {
                Ok((s, _)) => (r is Ok && final(self).stack@ == s),
                Err(e) => r == Err::<(), VmError>(e),
            },
    {
        if self.stack.len() < 2 {
            return Err(VmError::StackUnderflow);
        }
        let ghost start = self.stack@;
        let b = self.stack.pop().unwrap() as i32;
        let a = self.stack.pop().unwrap() as i32;
        let c: i32 = match instruction {
            Instruction::I32Add => a.wrapping_add(b),
            Instruction::I32Sub => a.wrapping_sub(b),
            Instruction::I32Mul => a.wrapping_mul(b),
            Instruction::I32Div => {
                if b == 0 {
                    return Err(VmError::DivisionByZero);
                }
                match a.checked_div(b) {
                    Some(q) => q,
                    None => return Err(VmError::IntegerOverflow),
                }
            },
            Instruction::I32Rem => {
                if b == 0 {
                    return Err(VmError::DivisionByZero);
                }
                if a == i32::MIN && b == -1 {
                    0
                } else {
                    match a.checked_rem(b) {
                        Some(m) => m,
                        None => 0,
                    }
                }
            },
            Instruction::I32And => a & b,
            Instruction::I32Or => a | b,
            Instruction::I32Xor => a ^ b,
            _ => a.wrapping_shl(b as u32),
        };
        self.stack.push(c as i64);
        proof {
            assert(self.stack@ =~= start.take(start.len() - 2).push(c as i64));
        }
        Ok(())
    }
}

} // verus!
