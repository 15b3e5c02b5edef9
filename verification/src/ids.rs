use vstd::prelude::*;

verus! {

/// An interned symbol (a name).
pub type SymbolId = u32;

/// A module of the program.
pub type ModuleId = u32;

/// A local variable of a function body.
pub type LocalId = u32;

/// A definition inside one module.
pub type DefId = u32;

/// A definition, named by its module and its index there.
#[derive(Clone, Copy, Debug, PartialEq, Eq, Hash, Structural)]
pub struct GlobalDefId {
    pub module_id: ModuleId,
    pub def_id: DefId,
}

impl GlobalDefId {
    pub fn new(module_id: ModuleId, def_id: DefId) -> (r: GlobalDefId)
        ensures
            r.module_id == module_id,
            r.def_id == def_id,
    {
        GlobalDefId { module_id, def_id }
    }

    pub fn same(&self, other: &GlobalDefId) -> (r: bool)
        ensures
            r == (*self == *other),
    {
        self.module_id == other.module_id && self.def_id == other.def_id
    }
}

/// A range of source bytes.
#[derive(Clone, Copy, Debug, PartialEq, Eq, Structural)]
pub struct Span {
    pub start: u32,
    pub end: u32,
}

/// How a method takes its receiver.
#[derive(Clone, Copy, Debug, PartialEq, Eq, Structural)]
pub enum ReceiverKind {
    Value,
    RefReadOnly,
    Ref,
}

} // verus!
