//! The compiler: builds the module table from a stream of decoded sections.
use vstd::prelude::*;

use crate::imports::{lookup_import, HostFunction, Import, Imports};
use crate::table::{Bytecode, Export, ExportKind, Exports, FunctKind, Function, FunctionDefinition, FunctionView};
use crate::{FuncType, Instruction, ValType};

verus! {

/// An import declared by a module: where it comes from and, for a function, its type index.
#[derive(Debug)]
pub struct ImportDecl {
    pub module: String,
    pub name: String,
    /// The type-section index of an imported function; `None` for other kinds of import.
    pub func_type_index: Option<u32>,
}

/// An export declared by a module.
#[derive(Debug)]
pub struct ExportDecl {
    pub name: String,
    pub kind: ExportKind,
    pub index: u32,
}

/// The code of one defined function: run-length encoded locals and the instructions.
#[derive(Debug)]
pub struct CodeEntry {
    pub locals: Vec<(u32, ValType)>,
    pub body: Vec<Instruction>,
}

/// One decoded section of a module, in the order the module lists them.
#[derive(Debug)]
pub enum Section {
    Types(Vec<FuncType>),
    Imports(Vec<ImportDecl>),
    Functions(Vec<u32>),
    Exports(Vec<ExportDecl>),
    Code(CodeEntry),
    /// A section that adds nothing to the module table.
    Other,
}

/// Why a module could not be compiled.
#[derive(Clone, Copy, Debug, PartialEq, Eq, Structural)]
pub enum CompileError {
    /// A type index beyond the type section.
    InvalidTypeIndex,
    /// An import that the registry does not hold.
    ImportNotFound,
    /// An import whose registered signature differs from the declared one.
    ImportSignatureMismatch,
    /// An import of something other than a function.
    UnsupportedImport,
    /// A code entry with no defined function left to fill.
    MissingFunction,
    /// Bytes that do not decode as a module.
    Malformed,
    /// A vector or reference value type.
    UnsupportedValueType,
    /// An operator outside the instruction set.
    UnsupportedOperator,
}

/// The state of a compilation: the signatures, the function table, the index of the first
/// defined function and how many code entries were consumed.
pub struct Model {
    pub types: Seq<(Seq<ValType>, Seq<ValType>)>,
    pub funcs: Seq<FunctionView>,
    pub first: Option<nat>,
    pub current: nat,
}

/// The empty state.
pub open spec fn initial_model() -> Model {
    Model { types: Seq::empty(), funcs: Seq::empty(), first: None, current: 0 }
}

/// The effect of one import declaration, checked against the registry `reg`.
pub open spec fn import_one(m: Model, d: ImportDecl, reg: Seq<(String, String, Import)>) -> Result<
    Model,
    CompileError,
> {
    match d.func_type_index {
        None => Err(CompileError::UnsupportedImport),
        Some(t) => if t >= m.types.len() {
            Err(CompileError::InvalidTypeIndex)
        } else {
            match lookup_import(reg, d.module@, d.name@) {
                None => Err(CompileError::ImportNotFound),
                Some(i) => if i.func_type@ != m.types[t as int] {
                    Err(CompileError::ImportSignatureMismatch)
                } else {
                    Ok(
                        Model {
                            funcs: m.funcs.push(
                                (i.func_type@, Some(i.index), Seq::empty(), Seq::empty()),
                            ),
                            ..m
                        },
                    )
                },
            }
        },
    }
}

/// The effect of import declarations, in order, stopping at the first failure.
pub open spec fn apply_imports(
    m: Model,
    ds: Seq<ImportDecl>,
    reg: Seq<(String, String, Import)>,
) -> Result<Model, CompileError>
    decreases ds.len(),
{
    if ds.len() == 0 {
        Ok(m)
    } else {
        match apply_imports(m, ds.drop_last(), reg) {
            Ok(m1) => import_one(m1, ds.last(), reg),
            Err(e) => Err(e),
        }
    }
}

/// The effect of declaring one defined function of type index `t`.
pub open spec fn function_one(m: Model, t: u32) -> Result<Model, CompileError> {
    if t >= m.types.len() {
        Err(CompileError::InvalidTypeIndex)
    } else {
        Ok(
            Model {
                first: if m.first is None {
                    Some(m.funcs.len())
                } else {
                    m.first
                },
                funcs: m.funcs.push((m.types[t as int], None, Seq::empty(), Seq::empty())),
                ..m
            },
        )
    }
}

/// The effect of declaring defined functions, in order.
pub open spec fn apply_functions(m: Model, ts: Seq<u32>) -> Result<Model, CompileError>
    decreases ts.len(),
{
    if ts.len() == 0 {
        Ok(m)
    } else {
        match apply_functions(m, ts.drop_last()) {
            Ok(m1) => function_one(m1, ts.last()),
            Err(e) => Err(e),
        }
    }
}

/// Run-length encoded locals written out one slot each.
pub open spec fn expand_locals(pairs: Seq<(u32, ValType)>) -> Seq<ValType>
    decreases pairs.len(),
{
    if pairs.len() == 0 {
        Seq::empty()
    } else {
        expand_locals(pairs.drop_last()) + Seq::new(
            pairs.last().0 as nat,
            |k: int| pairs.last().1,
        )
    }
}

/// The index of the function that the next code entry fills, if there is one.
pub open spec fn code_target(m: Model) -> Option<nat> {
    match m.first {
        None => None,
        Some(f) => if m.current + f < m.funcs.len() && m.funcs[(m.current + f) as int].1 is None {
            Some(m.current + f)
        } else {
            None
        },
    }
}

/// The effect of one code entry: it fills the next defined function.
pub open spec fn apply_code(m: Model, c: CodeEntry) -> Result<Model, CompileError> {
    match code_target(m) {
        None => Err(CompileError::MissingFunction),
        Some(t) => {
            let f = m.funcs[t as int];
            Ok(
                Model {
                    funcs: m.funcs.update(
                        t as int,
                        (f.0, f.1, f.2 + expand_locals(c.locals@), f.3 + c.body@),
                    ),
                    current: m.current + 1,
                    ..m
                },
            )
        },
    }
}

/// The effect of one section.
pub open spec fn apply_section(m: Model, s: Section, reg: Seq<(String, String, Import)>) -> Result<
    Model,
    CompileError,
> {
    match s {
        Section::Types(ts) => Ok(
            Model { types: m.types + ts@.map_values(|t: FuncType| t@), ..m },
        ),
        Section::Imports(ds) => apply_imports(m, ds@, reg),
        Section::Functions(ts) => apply_functions(m, ts@),
        Section::Code(c) => apply_code(m, c),
        _ => Ok(m),
    }
}

/// The state after all of `sections`, or the first failure.
pub open spec fn compile_model(sections: Seq<Section>, reg: Seq<(String, String, Import)>) -> Result<
    Model,
    CompileError,
>
    decreases sections.len(),
{
    if sections.len() == 0 {
        Ok(initial_model())
    } else {
        match compile_model(sections.drop_last(), reg) {
            Ok(m) => apply_section(m, sections.last(), reg),
            Err(e) => Err(e),
        }
    }
}

/// The export entries that `sections` declare, in order.
pub open spec fn export_entries(sections: Seq<Section>) -> Seq<(Seq<char>, Export)>
    decreases sections.len(),
{
    if sections.len() == 0 {
        Seq::empty()
    } else {
        export_entries(sections.drop_last()) + match sections.last() {
            Section::Exports(ds) => ds@.map_values(
                |d: ExportDecl| (d.name@, Export { kind: d.kind, index: d.index }),
            ),
            _ => Seq::empty(),
        }
    }
}

/// Whether `b` is the module table that `sections` compile to against the registry `reg`.
pub open spec fn compiled_from(sections: Seq<Section>, reg: Seq<(String, String, Import)>, b: Bytecode) -> bool {
    compile_model(sections, reg) matches Ok(m) && b.functions@.map_values(|f: Function| f@)
        == m.funcs && b.exports.entries() == export_entries(sections)
}

/// Builds the module table one declaration at a time.
pub struct BytecodeBuilder {
    pub function_types: Vec<FuncType>,
    pub functions: Vec<Function>,
    pub exports: Exports,
    pub first_function_index: Option<usize>,
    pub current_function_index: usize,
}

impl BytecodeBuilder {
    /// The builder's state as a compilation state.
    pub open spec fn model(&self) -> Model {
        Model {
            types: self.function_types@.map_values(|t: FuncType| t@),
            funcs: self.functions@.map_values(|f: Function| f@),
            first: match self.first_function_index {
                Some(f) => Some(f as nat),
                None => None,
            },
            current: self.current_function_index as nat,
        }
    }

    pub fn new() -> (r: Self)
        ensures
            r.model() == initial_model(),
            r.exports.entries().len() == 0,
    {
        let r = Self {
            function_types: Vec::new(),
            functions: Vec::new(),
            exports: Exports::new(),
            first_function_index: None,
            current_function_index: 0,
        };
        proof {
            assert(r.model().types =~= Seq::empty());
            assert(r.model().funcs =~= Seq::empty());
        }
        r
    }

    pub fn add_function_type(&mut self, func_type: FuncType)
        ensures
            final(self).model() == (Model {
                types: old(self).model().types.push(func_type@),
                ..old(self).model()
            }),
            final(self).exports == old(self).exports,
    {
        self.function_types.push(func_type);
        proof {
            assert(self.model().types =~= old(self).model().types.push(func_type@));
        }
    }

    pub fn get_function_type(&self, index: usize) -> (r: Option<&FuncType>)
        ensures
            index < self.function_types@.len() ==> r == Some(&self.function_types@[index as int]),
            index >= self.function_types@.len() ==> r is None,
    {
        if index < self.function_types.len() {
            Some(&self.function_types[index])
        } else {
            None
        }
    }

    /// Appends an imported function with signature `func_type` in host slot `index`.
    pub fn add_import(&mut self, func_type: FuncType, index: u32)
        ensures
            final(self).model() == (Model {
                funcs: old(self).model().funcs.push(
                    (func_type@, Some(index), Seq::empty(), Seq::empty()),
                ),
                ..old(self).model()
            }),
            final(self).exports == old(self).exports,
    {
        let ghost sig = func_type@;
        self.functions.push(Function::new(func_type, FunctKind::Import { index }));
        proof {
            assert(self.model().funcs =~= old(self).model().funcs.push(
                (sig, Some(index), Seq::empty(), Seq::empty()),
            ));
        }
    }

    /// Appends a defined function of type index `ty_index`, with no locals and an empty body.
    pub fn add_function(&mut self, ty_index: usize) -> (r: Result<(), CompileError>)
        ensures
            ty_index <= u32::MAX ==> function_one(old(self).model(), ty_index as u32) == match r {
                Ok(()) => Ok(final(self).model()),
                Err(e) => Err::<Model, CompileError>(e),
            },
            r is Err ==> final(self).model() == old(self).model(),
            final(self).exports == old(self).exports,
    {
        if ty_index >= self.function_types.len() {
            return Err(CompileError::InvalidTypeIndex);
        }
        if self.first_function_index.is_none() {
            self.first_function_index = Some(self.functions.len());
        }
        let func_type = self.function_types[ty_index].duplicate();
        let ghost sig = func_type@;
        let def = FunctionDefinition::new();
        proof {
            assert(def.locals@ =~= Seq::empty());
            assert(def.body@ =~= Seq::empty());
        }
        self.functions.push(Function::new(func_type, FunctKind::Definition(def)));
        proof {
            assert(self.model().funcs =~= old(self).model().funcs.push(
                (sig, None, Seq::empty(), Seq::empty()),
            ));
        }
        Ok(())
    }

    /// Maps `name` to `export` in the export index.
    pub fn add_export(&mut self, name: String, export: Export)
        ensures
            final(self).model() == old(self).model(),
            final(self).exports.entries() == old(self).exports.entries().push((name@, export)),
    {
        self.exports.add_export(name, export);
    }

    /// The index of the function that the current code entry fills.
    fn target(&self) -> (r: Option<usize>)
        ensures
            r matches Some(t) ==> code_target(self.model()) == Some(t as nat),
            r is None ==> code_target(self.model()) is None,
    {
        let n = self.functions.len();
        match self.first_function_index {
            None => None,
            Some(first) => match self.current_function_index.checked_add(first) {
                None => None,
                Some(t) => {
                    if t < n {
                        match self.functions[t].kind {
                            FunctKind::Definition(_) => Some(t),
                            FunctKind::Import { .. } => None,
                        }
                    } else {
                        None
                    }
                },
            },
        }
    }

    /// Appends a declared local to the function that the current code entry fills.
    pub fn add_local(&mut self, local: ValType) -> (r: Result<(), CompileError>)
        ensures
            code_target(old(self).model()) is None ==> r == Err::<(), CompileError>(
                CompileError::MissingFunction,
            ) && final(self).model() == old(self).model(),
            code_target(old(self).model()) matches Some(t) ==> r is Ok && final(self).model() == (
            Model {
                funcs: old(self).model().funcs.update(
                    t as int,
                    (
                        old(self).model().funcs[t as int].0,
                        None,
                        old(self).model().funcs[t as int].2.push(local),
                        old(self).model().funcs[t as int].3,
                    ),
                ),
                ..old(self).model()
            }),
            final(self).exports == old(self).exports,
    {
        match self.target() {
            None => Err(CompileError::MissingFunction),
            Some(t) => {
                self.functions[t].add_local(local);
                proof {
                    let mt = old(self).model().funcs[t as int];
                    assert(self.model().funcs =~= old(self).model().funcs.update(
                        t as int,
                        (mt.0, None, mt.2.push(local), mt.3),
                    ));
                }
                Ok(())
            },
        }
    }

    /// Appends an instruction to the function that the current code entry fills.
    pub fn add_instruction(&mut self, instruction: Instruction) -> (r: Result<(), CompileError>)
        ensures
            code_target(old(self).model()) is None ==> r == Err::<(), CompileError>(
                CompileError::MissingFunction,
            ) && final(self).model() == old(self).model(),
            code_target(old(self).model()) matches Some(t) ==> r is Ok && final(self).model() == (
            Model {
                funcs: old(self).model().funcs.update(
                    t as int,
                    (
                        old(self).model().funcs[t as int].0,
                        None,
                        old(self).model().funcs[t as int].2,
                        old(self).model().funcs[t as int].3.push(instruction),
                    ),
                ),
                ..old(self).model()
            }),
            final(self).exports == old(self).exports,
    {
        match self.target() {
            None => Err(CompileError::MissingFunction),
            Some(t) => {
                self.functions[t].add_instruction(instruction);
                proof {
                    let mt = old(self).model().funcs[t as int];
                    assert(self.model().funcs =~= old(self).model().funcs.update(
                        t as int,
                        (mt.0, None, mt.2, mt.3.push(instruction)),
                    ));
                }
                Ok(())
            },
        }
    }

    /// Moves on to the next defined function.
    pub fn next_function(&mut self)
        requires
            old(self).current_function_index < usize::MAX,
        ensures
            final(self).model() == (Model {
                current: old(self).model().current + 1,
                ..old(self).model()
            }),
            final(self).exports == old(self).exports,
    {
        self.current_function_index = self.current_function_index + 1;
    }

    /// The finished module table.
    pub fn build(self) -> (r: Bytecode)
        ensures
            r.functions@.map_values(|f: Function| f@) == self.model().funcs,
            r.exports == self.exports,
    {
        Bytecode { functions: self.functions, exports: self.exports }
    }
}


/// A failure part way through import declarations is the failure of all of them.
proof fn lemma_imports_failure(m: Model, ds: Seq<ImportDecl>, reg: Seq<(String, String, Import)>, i: int)
    requires
        0 <= i <= ds.len(),
        apply_imports(m, ds.take(i), reg) is Err,
    ensures
        apply_imports(m, ds, reg) == apply_imports(m, ds.take(i), reg),
    decreases ds.len() - i,
{
    if i == ds.len() {
        assert(ds.take(i) =~= ds);
    } else {
        assert(ds.drop_last().take(i) =~= ds.take(i));
        lemma_imports_failure(m, ds.drop_last(), reg, i);
    }
}

/// A failure part way through function declarations is the failure of all of them.
proof fn lemma_functions_failure(m: Model, ts: Seq<u32>, i: int)
    requires
        0 <= i <= ts.len(),
        apply_functions(m, ts.take(i)) is Err,
    ensures
        apply_functions(m, ts) == apply_functions(m, ts.take(i)),
    decreases ts.len() - i,
{
    if i == ts.len() {
        assert(ts.take(i) =~= ts);
    } else {
        assert(ts.drop_last().take(i) =~= ts.take(i));
        lemma_functions_failure(m, ts.drop_last(), i);
    }
}

/// A failure part way through the sections is the failure of the whole module.
proof fn lemma_sections_failure(sections: Seq<Section>, reg: Seq<(String, String, Import)>, i: int)
    requires
        0 <= i <= sections.len(),
        compile_model(sections.take(i), reg) is Err,
    ensures
        compile_model(sections, reg) == compile_model(sections.take(i), reg),
    decreases sections.len() - i,
{
    if i == sections.len() {
        assert(sections.take(i) =~= sections);
    } else {
        assert(sections.drop_last().take(i) =~= sections.take(i));
        lemma_sections_failure(sections.drop_last(), reg, i);
    }
}

/// Resolves the import `d` against the builder's signatures and the registry: the signature
/// and host slot of the imported function.
pub fn resolve_import<F: HostFunction>(
    builder: &BytecodeBuilder,
    d: &ImportDecl,
    imports: &Imports<F>,
) -> (r: Result<(FuncType, u32), CompileError>)
    ensures
        match import_one(builder.model(), *d, imports.imports@) {
            Ok(m) => (r matches Ok((ft, slot)) && m == (Model {
                funcs: builder.model().funcs.push((ft@, Some(slot), Seq::empty(), Seq::empty())),
                ..builder.model()
            })),
            Err(e) => r == Err::<(FuncType, u32), CompileError>(e),
        },
{
    let t = match d.func_type_index {
        None => return Err(CompileError::UnsupportedImport),
        Some(t) => t,
    };
    let declared = match builder.get_function_type(t as usize) {
        None => return Err(CompileError::InvalidTypeIndex),
        Some(ft) => ft,
    };
    let import = match imports.get_import(d.module.as_str(), d.name.as_str()) {
        None => return Err(CompileError::ImportNotFound),
        Some(i) => i,
    };
    if *declared != import.func_type {
        return Err(CompileError::ImportSignatureMismatch);
    }
    Ok((import.func_type.duplicate(), import.index))
}

fn compile_types(builder: &mut BytecodeBuilder, ts: &Vec<FuncType>)
    ensures
        final(builder).model() == (Model {
            types: old(builder).model().types + ts@.map_values(|t: FuncType| t@),
            ..old(builder).model()
        }),
        final(builder).exports == old(builder).exports,
{
    let mut k: usize = 0;
    while k < ts.len()
        invariant
            k <= ts@.len(),
            builder.model() == (Model {
                types: old(builder).model().types + ts@.take(k as int).map_values(|t: FuncType| t@),
                ..old(builder).model()
            }),
            builder.exports == old(builder).exports,
        decreases ts@.len() - k,
    {
        let ft = ts[k].duplicate();
        builder.add_function_type(ft);
        k = k + 1;
        proof {
            assert(builder.model().types =~= old(builder).model().types + ts@.take(k as int).map_values(|t: FuncType| t@));
        }
    }
    proof {
        assert(ts@.take(k as int) =~= ts@);
    }
}

fn compile_imports<F: HostFunction>(builder: &mut BytecodeBuilder, ds: &Vec<ImportDecl>, imports: &Imports<F>) -> (r: Result<(), CompileError>)
    ensures
        match apply_imports(old(builder).model(), ds@, imports.imports@) {
            Ok(m) => r is Ok && final(builder).model() == m,
            Err(e) => r == Err::<(), CompileError>(e),
        },
        final(builder).exports == old(builder).exports,
{
    let ghost m0 = builder.model();
    let mut k: usize = 0;
    while k < ds.len()
        invariant
            k <= ds@.len(),
            m0 == old(builder).model(),
            apply_imports(m0, ds@.take(k as int), imports.imports@) == Ok::<Model, CompileError>(builder.model()),
            builder.exports == old(builder).exports,
        decreases ds@.len() - k,
    {
        proof {
            assert(ds@.take(k + 1).drop_last() =~= ds@.take(k as int));
        }
        match resolve_import(builder, &ds[k], imports) {
            Ok((ft, slot)) => {
                builder.add_import(ft, slot);
            },
            Err(e) => {
                proof {
                    lemma_imports_failure(m0, ds@, imports.imports@, k + 1);
                }
                return Err(e);
            },
        }
        k = k + 1;
    }
    proof {
        assert(ds@.take(k as int) =~= ds@);
    }
    Ok(())
}

fn compile_functions(builder: &mut BytecodeBuilder, ts: &Vec<u32>) -> (r: Result<(), CompileError>)
    ensures
        match apply_functions(old(builder).model(), ts@) {
            Ok(m) => r is Ok && final(builder).model() == m,
            Err(e) => r == Err::<(), CompileError>(e),
        },
        final(builder).exports == old(builder).exports,
{
    let ghost m0 = builder.model();
    let mut k: usize = 0;
    while k < ts.len()
        invariant
            k <= ts@.len(),
            m0 == old(builder).model(),
            apply_functions(m0, ts@.take(k as int)) == Ok::<Model, CompileError>(builder.model()),
            builder.exports == old(builder).exports,
        decreases ts@.len() - k,
    {
        proof {
            assert(ts@.take(k + 1).drop_last() =~= ts@.take(k as int));
        }
        match builder.add_function(ts[k] as usize) {
            Ok(()) => {},
            Err(e) => {
                proof {
                    lemma_functions_failure(m0, ts@, k + 1);
                }
                return Err(e);
            },
        }
        k = k + 1;
    }
    proof {
        assert(ts@.take(k as int) =~= ts@);
    }
    Ok(())
}

fn compile_exports(builder: &mut BytecodeBuilder, ds: &Vec<ExportDecl>)
    ensures
        final(builder).model() == old(builder).model(),
        final(builder).exports.entries() == old(builder).exports.entries() + ds@.map_values(
            |d: ExportDecl| (d.name@, Export { kind: d.kind, index: d.index }),
        ),
{
    let mut k: usize = 0;
    while k < ds.len()
        invariant
            k <= ds@.len(),
            builder.model() == old(builder).model(),
            builder.exports.entries() == old(builder).exports.entries() + ds@.take(k as int).map_values(
                |d: ExportDecl| (d.name@, Export { kind: d.kind, index: d.index }),
            ),
        decreases ds@.len() - k,
    {
        let d = &ds[k];
        builder.add_export(d.name.clone(), Export { kind: d.kind, index: d.index });
        k = k + 1;
        proof {
            assert(builder.exports.entries() =~= old(builder).exports.entries() + ds@.take(k as int).map_values(
                |d: ExportDecl| (d.name@, Export { kind: d.kind, index: d.index }),
            ));
        }
    }
    proof {
        assert(ds@.take(k as int) =~= ds@);
    }
}

fn compile_code(builder: &mut BytecodeBuilder, c: &CodeEntry) -> (r: Result<(), CompileError>)
    ensures
        match apply_code(old(builder).model(), *c) {
            Ok(m) => r is Ok && final(builder).model() == m,
            Err(e) => r == Err::<(), CompileError>(e),
        },
        final(builder).exports == old(builder).exports,
{
    let t = match builder.target() {
        None => return Err(CompileError::MissingFunction),
        Some(t) => t,
    };
    let ghost m0 = builder.model();
    let ghost f0 = m0.funcs[t as int];
    proof {
        assert(c.locals@.take(0) =~= Seq::<(u32, ValType)>::empty());
        assert(f0.2 + expand_locals(c.locals@.take(0)) =~= f0.2);
        assert(m0.funcs.update(t as int, (f0.0, None, f0.2, f0.3)) =~= m0.funcs);
    }
    let mut k: usize = 0;
    while k < c.locals.len()
        invariant
            k <= c.locals@.len(),
            m0 == old(builder).model(),
            code_target(m0) == Some(t as nat),
            code_target(builder.model()) == Some(t as nat),
            builder.exports == old(builder).exports,
            builder.model() == (Model {
                funcs: m0.funcs.update(t as int, (f0.0, None, f0.2 + expand_locals(c.locals@.take(k as int)), f0.3)),
                ..m0
            }),
        decreases c.locals@.len() - k,
    {
        let (n, ty) = c.locals[k];
        let ghost before = f0.2 + expand_locals(c.locals@.take(k as int));
        let mut j: u32 = 0;
        while j < n
            invariant
                j <= n,
                code_target(m0) == Some(t as nat),
                code_target(builder.model()) == Some(t as nat),
                builder.exports == old(builder).exports,
                builder.model() == (Model {
                    funcs: m0.funcs.update(t as int, (f0.0, None, before + Seq::new(j as nat, |i: int| ty), f0.3)),
                    ..m0
                }),
            decreases n - j,
        {
            let _ = builder.add_local(ty);
            proof {
                assert((before + Seq::new(j as nat, |i: int| ty)).push(ty) =~= before + Seq::new(
                    (j + 1) as nat,
                    |i: int| ty,
                ));
            }
            j = j + 1;
            proof {
                assert(builder.model().funcs =~= m0.funcs.update(t as int, (f0.0, None, before + Seq::new(j as nat, |i: int| ty), f0.3)));
            }
        }
        k = k + 1;
        proof {
            assert(c.locals@.take(k as int).drop_last() =~= c.locals@.take(k - 1));
            assert(before + Seq::new(n as nat, |i: int| ty) =~= f0.2 + expand_locals(c.locals@.take(k as int)));
        }
    }
    proof {
        assert(c.locals@.take(k as int) =~= c.locals@);
    }
    let ghost locals_done = f0.2 + expand_locals(c.locals@);
    proof {
        assert(c.body@.take(0) =~= Seq::<Instruction>::empty());
        assert(f0.3 + c.body@.take(0) =~= f0.3);
    }
    let mut i: usize = 0;
    while i < c.body.len()
        invariant
            i <= c.body@.len(),
            m0 == old(builder).model(),
            code_target(m0) == Some(t as nat),
            code_target(builder.model()) == Some(t as nat),
            builder.exports == old(builder).exports,
            builder.model() == (Model {
                funcs: m0.funcs.update(t as int, (f0.0, None, locals_done, f0.3 + c.body@.take(i as int))),
                ..m0
            }),
        decreases c.body@.len() - i,
    {
        let _ = builder.add_instruction(c.body[i]);
        proof {
            assert((f0.3 + c.body@.take(i as int)).push(c.body@[i as int]) =~= f0.3 + c.body@.take(
                i + 1,
            ));
        }
        i = i + 1;
        proof {
            assert(builder.model().funcs =~= m0.funcs.update(t as int, (f0.0, None, locals_done, f0.3 + c.body@.take(i as int))));
        }
    }
    proof {
        assert(c.body@.take(i as int) =~= c.body@);
    }
    // The table's length is a `usize`, and the filled index lies below it, so the cursor can
    // still advance.
    let table_len = builder.functions.len();
    proof {
        assert(builder.current_function_index < table_len);
    }
    builder.next_function();
    Ok(())
}

/// Compiles a module from its decoded sections, resolving its imports against `imports`.
pub fn compile_sections<F: HostFunction>(sections: &Vec<Section>, imports: &Imports<F>) -> (r: Result<Bytecode, CompileError>)
    ensures
        match compile_model(sections@, imports.imports@) {
            Ok(m) => (r matches Ok(b) && b.functions@.map_values(|f: Function| f@) == m.funcs
                && b.exports.entries() == export_entries(sections@)),
            Err(e) => r == Err::<Bytecode, CompileError>(e),
        },
{
    let mut builder = BytecodeBuilder::new();
    let mut i: usize = 0;
    while i < sections.len()
        invariant
            i <= sections@.len(),
            compile_model(sections@.take(i as int), imports.imports@) == Ok::<Model, CompileError>(builder.model()),
            builder.exports.entries() == export_entries(sections@.take(i as int)),
        decreases sections@.len() - i,
    {
        proof {
            assert(sections@.take(i + 1).drop_last() =~= sections@.take(i as int));
        }
        let step = match &sections[i] {
            Section::Types(ts) => {
                compile_types(&mut builder, ts);
                Ok(())
            },
            Section::Imports(ds) => compile_imports(&mut builder, ds, imports),
            Section::Functions(ts) => compile_functions(&mut builder, ts),
            Section::Exports(ds) => {
                compile_exports(&mut builder, ds);
                Ok(())
            },
            Section::Code(c) => compile_code(&mut builder, c),
            Section::Other => Ok(()),
        };
        match step {
            Ok(()) => {},
            Err(e) => {
                proof {
                    lemma_sections_failure(sections@, imports.imports@, i + 1);
                }
                return Err(e);
            },
        }
        i = i + 1;
    }
    proof {
        assert(sections@.take(i as int) =~= sections@);
    }
    Ok(builder.build())
}

} // verus!
