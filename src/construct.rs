use vstd::prelude::*;

use crate::builtin::{GodotString, NodePath, StringName};
use crate::layout::BuiltinKind;
use crate::table::{entry_output, FnHandle, MethodEntry};

verus! {

/// The engine object pointer that an object handle carries.
#[derive(Clone, Copy, Debug, PartialEq, Eq, Structural)]
pub struct ObjectPtr {
    pub address: u64,
}

/// An already valid value handed to an engine call; the call reads it through its address.
#[derive(Debug)]
pub enum Operand {
    Text(String),
    GodotString(GodotString),
    StringName(StringName),
    NodePath(NodePath),
    Object(ObjectPtr),
}

/// Whether `args` are the operands an entry takes, in its order.
pub open spec fn operands_fit(e: MethodEntry, args: Seq<Operand>) -> bool {
    match e {
        MethodEntry::StringFromUtf8 => args.len() == 1 && args[0] is Text,
        MethodEntry::NodePathFromString => args.len() == 1 && args[0] is GodotString,
        MethodEntry::StringFromNodePath => args.len() == 1 && args[0] is NodePath,
        MethodEntry::StringNameFromString => args.len() == 1 && args[0] is GodotString,
        MethodEntry::CallableFromObjectMethod => args.len() == 2 && args[0] is Object
            && args[1] is StringName,
    }
}

/// One engine call: the function to run, the entry it implements, and its operands.
/// Running it fully initializes one output value of the entry's kind.
#[derive(Debug)]
pub struct ForeignCall {
    pub entry: MethodEntry,
    pub function: FnHandle,
    pub args: Vec<Operand>,
}

/// A value under construction: storage that exactly one engine call must initialize.
/// It can only be made by the conversions of this crate and is consumed when the
/// initialized words are handed back, so a value cannot be read before, nor
/// initialized twice.
#[derive(Debug)]
pub struct Construction {
    call: ForeignCall,
}

impl Construction {
    /// The engine call that initializes the value.
    pub closed spec fn spec_call(&self) -> &ForeignCall {
        &self.call
    }

    /// The kind of value under construction.
    pub open spec fn spec_output(&self) -> BuiltinKind {
        entry_output(self.spec_call().entry)
    }

    /// A construction whose call is well formed: its operands fit its entry.
    pub open spec fn wf(&self) -> bool {
        operands_fit(self.spec_call().entry, self.spec_call().args@)
    }

    pub(crate) fn new(call: ForeignCall) -> (r: Construction)
        requires
            operands_fit(call.entry, call.args@),
        ensures
            r.spec_call() == call,
            r.wf(),
    {
        Construction { call }
    }

    /// The engine call that initializes the value.
    pub fn call(&self) -> (r: &ForeignCall)
        ensures
            r == self.spec_call(),
    {
        &self.call
    }

    /// The kind of value under construction.
    pub fn output(&self) -> (r: BuiltinKind)
        ensures
            r == self.spec_output(),
    {
        match self.call.entry {
            MethodEntry::StringFromUtf8 => BuiltinKind::GodotString,
            MethodEntry::NodePathFromString => BuiltinKind::NodePath,
            MethodEntry::StringFromNodePath => BuiltinKind::GodotString,
            MethodEntry::StringNameFromString => BuiltinKind::StringName,
            MethodEntry::CallableFromObjectMethod => BuiltinKind::Callable,
        }
    }
}

} // verus!
