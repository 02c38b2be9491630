//! The compiled module table: functions by index and exports by name.
use vstd::prelude::*;

use crate::{FuncType, Instruction, ValType};

verus! {

/// The declared locals and the body of a function defined by the module.
#[derive(Debug)]
pub struct FunctionDefinition {
    pub locals: Vec<ValType>,
    pub body: Vec<Instruction>,
}

impl FunctionDefinition {
    pub fn new() -> (r: Self)
        ensures
            r.locals@.len() == 0,
            r.body@.len() == 0,
    {
        Self { locals: Vec::new(), body: Vec::new() }
    }
}

/// Where a function's code comes from: a host slot or the module itself.
#[derive(Debug)]
pub enum FunctKind {
    Import { index: u32 },
    Definition(FunctionDefinition),
}

/// One entry of the function table.
#[derive(Debug)]
pub struct Function {
    pub func_type: FuncType,
    pub kind: FunctKind,
}

/// A function as data: signature, host slot (for an import), declared locals and body.
pub type FunctionView = ((Seq<ValType>, Seq<ValType>), Option<u32>, Seq<ValType>, Seq<Instruction>);

impl View for Function {
    type V = FunctionView;

    open spec fn view(&self) -> FunctionView {
        match self.kind {
            FunctKind::Import { index } => (self.func_type@, Some(index), Seq::empty(), Seq::empty()),
            FunctKind::Definition(def) => (self.func_type@, None, def.locals@, def.body@),
        }
    }
}

impl Function {
    pub fn new(func_type: FuncType, kind: FunctKind) -> (r: Self)
        ensures
            r.func_type == func_type,
            r.kind == kind,
    {
        Self { func_type, kind }
    }

    /// Appends a declared local to a defined function.
    pub fn add_local(&mut self, local: ValType)
        requires
            old(self).kind is Definition,
        ensures
            final(self).func_type == old(self).func_type,
            final(self).kind is Definition,
            final(self).kind->Definition_0.locals@ == old(self).kind->Definition_0.locals@.push(
                local,
            ),
            final(self).kind->Definition_0.body@ == old(self).kind->Definition_0.body@,
    {
        match self.kind {
            FunctKind::Definition(ref mut def) => {
                def.locals.push(local);
            },
            FunctKind::Import { .. } => {},
        }
    }

    /// Appends an instruction to the body of a defined function.
    pub fn add_instruction(&mut self, instruction: Instruction)
        requires
            old(self).kind is Definition,
        ensures
            final(self).func_type == old(self).func_type,
            final(self).kind is Definition,
            final(self).kind->Definition_0.body@ == old(self).kind->Definition_0.body@.push(
                instruction,
            ),
            final(self).kind->Definition_0.locals@ == old(self).kind->Definition_0.locals@,
    {
        match self.kind {
            FunctKind::Definition(ref mut def) => {
                def.body.push(instruction);
            },
            FunctKind::Import { .. } => {},
        }
    }
}

/// The index space that an export refers to.
#[derive(Clone, Copy, Debug, PartialEq, Eq, Structural)]
pub enum ExportKind {
    Function,
    Table,
    Memory,
    Global,
    Tag,
}

/// An exported item: its index space and its index there.
#[derive(Clone, Copy, Debug, PartialEq, Eq, Structural)]
pub struct Export {
    pub kind: ExportKind,
    pub index: u32,
}

/// The export of `name` among `entries`: the last entry under that name wins.
pub open spec fn lookup_export(entries: Seq<(Seq<char>, Export)>, name: Seq<char>) -> Option<
    Export,
>
    decreases entries.len(),
{
    if entries.len() == 0 {
        None
    } else if entries.last().0 == name {
        Some(entries.last().1)
    } else {
        lookup_export(entries.drop_last(), name)
    }
}

/// The export index: names to exports, where a later entry overrides an earlier one.
#[derive(Debug)]
pub struct Exports {
    pub exports: Vec<(String, Export)>,
}

impl Exports {
    pub fn new() -> (r: Self)
        ensures
            r.entries().len() == 0,
            forall|name: Seq<char>| #[trigger] r.lookup(name) is None,
    {
        let r = Self { exports: Vec::new() };
        proof {
            assert(r.entries() =~= Seq::<(Seq<char>, Export)>::empty());
        }
        r
    }

    /// The entries in order of insertion, each name as characters.
    pub open spec fn entries(&self) -> Seq<(Seq<char>, Export)> {
        self.exports@.map_values(|e: (String, Export)| (e.0@, e.1))
    }

    /// The export under `name`, if any.
    pub open spec fn lookup(&self, name: Seq<char>) -> Option<Export> {
        lookup_export(self.entries(), name)
    }

    /// Maps `name` to `export`, replacing any earlier export of that name.
    pub fn add_export(&mut self, name: String, export: Export)
        ensures
            final(self).entries() == old(self).entries().push((name@, export)),
            final(self).lookup(name@) == Some(export),
            forall|other: Seq<char>|
                other != name@ ==> #[trigger] final(self).lookup(other) == old(self).lookup(other),
    {
        self.exports.push((name, export));
        proof {
            assert(self.entries() =~= old(self).entries().push((name@, export)));
            assert(self.entries().drop_last() =~= old(self).entries());
        }
    }

    /// The export under `name`, if any.
    pub fn get_export(&self, name: &str) -> (r: Option<&Export>)
        ensures
            r matches Some(e) ==> self.lookup(name@) == Some(*e),
            r is None ==> self.lookup(name@) is None,
    {
        let key = name.to_owned();
        let mut i: usize = self.exports.len();
        proof {
            assert(self.entries().take(i as int) =~= self.entries());
        }
        while i > 0
            invariant
                i <= self.exports@.len(),
                key@ == name@,
                self.lookup(name@) == lookup_export(self.entries().take(i as int), name@),
            decreases i,
        {
            proof {
                assert(self.entries().take(i as int).drop_last() =~= self.entries().take(i - 1));
            }
            if self.exports[i - 1].0 == key {
                return Some(&self.exports[i - 1].1);
            }
            i = i - 1;
        }
        None
    }
}

/// The compiled module: the function table and the export index.
#[derive(Debug)]
pub struct Bytecode {
    pub functions: Vec<Function>,
    pub exports: Exports,
}

impl Bytecode {
    /// The function that `name` exports, if it names a function export with a valid index.
    pub open spec fn exported(&self, name: Seq<char>) -> Option<Function> {
        match self.exports.lookup(name) {
            Some(e) => if e.kind == ExportKind::Function && e.index < self.functions@.len() {
                Some(self.functions@[e.index as int])
            } else {
                None
            },
            None => None,
        }
    }

    /// The function that `name` exports, if any.
    pub fn get_function(&self, name: &str) -> (r: Option<&Function>)
        ensures
            r matches Some(f) ==> self.exported(name@) == Some(*f),
            r is None ==> self.exported(name@) is None,
    {
        match self.exports.get_export(name) {
            Some(export) => {
                if export.kind == ExportKind::Function && (export.index as usize)
                    < self.functions.len() {
                    Some(&self.functions[export.index as usize])
                } else {
                    None
                }
            },
            None => None,
        }
    }

    /// The function at `index` of the table, if any.
    pub fn get_function_by_index(&self, index: usize) -> (r: Option<&Function>)
        ensures
            index < self.functions@.len() ==> r == Some(&self.functions@[index as int]),
            index >= self.functions@.len() ==> r is None,
    {
        if index < self.functions.len() {
            Some(&self.functions[index])
        } else {
            None
        }
    }
}

} // verus!
