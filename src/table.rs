use vstd::prelude::*;

use crate::layout::BuiltinKind;

verus! {

/// The engine operations the bridge calls. Each one initializes one output value from
/// already valid operands.
#[derive(Clone, Copy, Debug, PartialEq, Eq, Structural)]
pub enum MethodEntry {
    StringFromUtf8,
    NodePathFromString,
    StringFromNodePath,
    StringNameFromString,
    CallableFromObjectMethod,
}

/// The kind of value an entry initializes.
pub open spec fn entry_output(e: MethodEntry) -> BuiltinKind {
    match e {
        MethodEntry::StringFromUtf8 => BuiltinKind::GodotString,
        MethodEntry::NodePathFromString => BuiltinKind::NodePath,
        MethodEntry::StringFromNodePath => BuiltinKind::GodotString,
        MethodEntry::StringNameFromString => BuiltinKind::StringName,
        MethodEntry::CallableFromObjectMethod => BuiltinKind::Callable,
    }
}

/// Address of an engine function, as the engine handed it out when it was loaded.
#[derive(Clone, Copy, Debug, PartialEq, Eq, Structural)]
pub struct FnHandle {
    pub address: usize,
}

/// The engine functions the bridge calls, one per entry.
#[derive(Clone, Copy, Debug, PartialEq, Eq, Structural)]
pub struct MethodTable {
    pub string_from_utf8: FnHandle,
    pub node_path_from_string: FnHandle,
    pub string_from_node_path: FnHandle,
    pub string_name_from_string: FnHandle,
    pub callable_from_object_method: FnHandle,
}

impl MethodTable {
    /// The function the table holds for an entry.
    pub open spec fn spec_entry(self, e: MethodEntry) -> FnHandle {
        match e {
            MethodEntry::StringFromUtf8 => self.string_from_utf8,
            MethodEntry::NodePathFromString => self.node_path_from_string,
            MethodEntry::StringFromNodePath => self.string_from_node_path,
            MethodEntry::StringNameFromString => self.string_name_from_string,
            MethodEntry::CallableFromObjectMethod => self.callable_from_object_method,
        }
    }

    /// The function the table holds for an entry.
    pub fn entry(&self, e: MethodEntry) -> (r: FnHandle)
        ensures
            r == self.spec_entry(e),
    {
        match e {
            MethodEntry::StringFromUtf8 => self.string_from_utf8,
            MethodEntry::NodePathFromString => self.node_path_from_string,
            MethodEntry::StringFromNodePath => self.string_from_node_path,
            MethodEntry::StringNameFromString => self.string_name_from_string,
            MethodEntry::CallableFromObjectMethod => self.callable_from_object_method,
        }
    }
}

/// What resolving does: an unresolved cell takes the freshly loaded table, a resolved
/// one keeps its table. The pair is the cell afterwards and the table handed out.
pub open spec fn resolve_outcome(cell: Option<MethodTable>, loaded: MethodTable) -> (
    Option<MethodTable>,
    MethodTable,
) {
    match cell {
        Some(t) => (Some(t), t),
        None => (Some(loaded), loaded),
    }
}

/// The tables handed out by resolving once per element of `loads`, in order, starting
/// from `cell`; each element is what the loader would return on that call.
pub open spec fn resolve_each(cell: Option<MethodTable>, loads: Seq<MethodTable>) -> Seq<
    MethodTable,
>
    decreases loads.len(),
{
    if loads.len() == 0 {
        seq![]
    } else {
        let (next, handed) = resolve_outcome(cell, loads[0]);
        seq![handed] + resolve_each(next, loads.drop_first())
    }
}

proof fn lemma_resolve_each_len(cell: Option<MethodTable>, loads: Seq<MethodTable>)
    ensures
        resolve_each(cell, loads).len() == loads.len(),
    decreases loads.len(),
{
    if loads.len() > 0 {
        lemma_resolve_each_len(resolve_outcome(cell, loads[0]).0, loads.drop_first());
    }
}

/// Resolving any number of times hands out the same table every time: the one the cell
/// was published with, or the first one loaded.
pub proof fn lemma_resolve_idempotent(cell: Option<MethodTable>, loads: Seq<MethodTable>)
    requires
        loads.len() > 0,
    ensures
        forall|i: int|
            0 <= i < loads.len() ==> #[trigger] resolve_each(cell, loads)[i] == resolve_outcome(
                cell,
                loads[0],
            ).1,
    decreases loads.len(),
{
    let (next, handed) = resolve_outcome(cell, loads[0]);
    let rest = loads.drop_first();
    lemma_resolve_each_len(next, rest);
    if rest.len() > 0 {
        lemma_resolve_idempotent(next, rest);
        assert(resolve_outcome(next, rest[0]).1 == handed);
    }
    assert forall|i: int| 0 <= i < loads.len() implies #[trigger] resolve_each(cell, loads)[i]
        == handed by {
        if i > 0 {
            assert(resolve_each(cell, loads)[i] == resolve_each(next, rest)[i - 1]);
        }
    }
}

/// A cell that publishes the method table once. Once resolved it never changes.
pub struct TableCell {
    resolved: Option<MethodTable>,
}

impl View for TableCell {
    type V = Option<MethodTable>;

    closed spec fn view(&self) -> Option<MethodTable> {
        self.resolved
    }
}

impl TableCell {
    /// A cell that has not been resolved yet.
    pub fn new() -> (r: TableCell)
        ensures
            r@ is None,
    {
        TableCell { resolved: None }
    }

    /// Whether the table has been published.
    pub fn is_resolved(&self) -> (r: bool)
        ensures
            r == self@ is Some,
    {
        self.resolved.is_some()
    }

    /// Returns the published table. On the first call it runs `load` and publishes what
    /// it returns; later calls do not run `load` and return the same table.
    pub fn resolve<F: FnOnce() -> MethodTable>(&mut self, load: F) -> (r: MethodTable)
        requires
            old(self)@ is None ==> load.requires(()),
        ensures
            old(self)@ is Some ==> r == old(self)@->0,
            old(self)@ is None ==> load.ensures((), r),
            final(self)@ == resolve_outcome(old(self)@, r).0,
            r == resolve_outcome(old(self)@, r).1,
    {
        match self.resolved {
            Some(t) => t,
            None => {
                let t = load();
                self.resolved = Some(t);
                t
            },
        }
    }
}

} // verus!
