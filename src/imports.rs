//! The host import registry: signatures by (module, name) and the host functions by slot.
use vstd::prelude::*;

use crate::{FuncType, Return, ValType, Value};

verus! {

/// A failure raised by a host function.
#[derive(Clone, Debug)]
pub struct HostError {
    pub message: String,
}

/// A function supplied by the host to satisfy an import.
pub trait HostFunction {
    fn call(&mut self, args: Vec<Value>) -> Result<Return, HostError>;
}

/// A registered import: its declared signature and its host slot.
#[derive(Debug)]
pub struct Import {
    pub func_type: FuncType,
    pub index: u32,
}

impl Import {
    pub fn new(func_type: FuncType, index: u32) -> (r: Self)
        ensures
            r.func_type == func_type,
            r.index == index,
    {
        Self { func_type, index }
    }
}

/// The import registered under (`module`, `name`) among `entries`; a later entry wins.
pub open spec fn lookup_import(
    entries: Seq<(String, String, Import)>,
    module: Seq<char>,
    name: Seq<char>,
) -> Option<Import>
    decreases entries.len(),
{
    if entries.len() == 0 {
        None
    } else if entries.last().0@ == module && entries.last().1@ == name {
        Some(entries.last().2)
    } else {
        lookup_import(entries.drop_last(), module, name)
    }
}

/// The registry of host functions that a module's imports resolve to.
pub struct Imports<F> {
    pub imports: Vec<(String, String, Import)>,
    pub import_fns: Vec<F>,
}

impl<F: HostFunction> Imports<F> {
    pub fn new() -> (r: Self)
        ensures
            r.import_fns@.len() == 0,
            forall|m: Seq<char>, n: Seq<char>| #[trigger] r.lookup(m, n) is None,
    {
        Self { imports: Vec::new(), import_fns: Vec::new() }
    }

    /// The import registered under (`module`, `name`), if any.
    pub open spec fn lookup(&self, module: Seq<char>, name: Seq<char>) -> Option<Import> {
        lookup_import(self.imports@, module, name)
    }

    /// Registers `import_fn` under (`module`, `name`) with the given signature, in the next slot.
    pub fn add_import(
        &mut self,
        module: &str,
        name: &str,
        params: Vec<ValType>,
        results: Vec<ValType>,
        import_fn: F,
    )
        requires
            old(self).import_fns@.len() < u32::MAX,
        ensures
            final(self).import_fns@ == old(self).import_fns@.push(import_fn),
            final(self).lookup(module@, name@) matches Some(i) && i.index == old(
                self,
            ).import_fns@.len() && i.func_type@ == (params@, results@),
            forall|m: Seq<char>, n: Seq<char>|
                !(m == module@ && n == name@) ==> #[trigger] final(self).lookup(m, n) == old(
                    self,
                ).lookup(m, n),
    {
        let slot = self.import_fns.len() as u32;
        let import = Import::new(FuncType::new(params, results), slot);
        self.imports.push((module.to_owned(), name.to_owned(), import));
        self.import_fns.push(import_fn);
        proof {
            assert(self.imports@.drop_last() =~= old(self).imports@);
        }
    }

    /// The import registered under (`module`, `name`), if any.
    pub fn get_import(&self, module: &str, name: &str) -> (r: Option<&Import>)
        ensures
            r matches Some(i) ==> self.lookup(module@, name@) == Some(*i),
            r is None ==> self.lookup(module@, name@) is None,
    {
        let module_key = module.to_owned();
        let name_key = name.to_owned();
        let mut i: usize = self.imports.len();
        proof {
            assert(self.imports@.take(i as int) =~= self.imports@);
        }
        while i > 0
            invariant
                i <= self.imports@.len(),
                module_key@ == module@,
                name_key@ == name@,
                self.lookup(module@, name@) == lookup_import(
                    self.imports@.take(i as int),
                    module@,
                    name@,
                ),
            decreases i,
        {
            proof {
                assert(self.imports@.take(i as int).drop_last() =~= self.imports@.take(i - 1));
            }
            if self.imports[i - 1].0 == module_key && self.imports[i - 1].1 == name_key {
                return Some(&self.imports[i - 1].2);
            }
            i = i - 1;
        }
        None
    }

    /// Calls the host function in slot `index` with `args`.
    pub fn invoke_import(&mut self, index: usize, args: Vec<Value>) -> (r: Result<
        Return,
        HostError,
    >)
        requires
            index < old(self).import_fns@.len(),
        ensures
            final(self).imports@ == old(self).imports@,
            final(self).import_fns@.len() == old(self).import_fns@.len(),
    {
        self.import_fns[index].call(args)
    }
}

} // verus!
