use vstd::prelude::*;

use crate::builtin::{Callable, GodotString, NodePath, StringName};
use crate::construct::{operands_fit, Construction, ForeignCall, ObjectPtr, Operand};
use crate::layout::BuiltinKind;
use crate::table::{MethodEntry, MethodTable};

verus! {

/// Whether a construction runs the table's function for `e` on exactly `args`.
pub open spec fn runs(
    c: &Construction,
    table: MethodTable,
    e: MethodEntry,
    args: Seq<Operand>,
) -> bool {
    &&& c.wf()
    &&& c.spec_call().entry == e
    &&& c.spec_call().function == table.spec_entry(e)
    &&& c.spec_call().args@ == args
}

/// Whether a construction runs the table's function for building a string from host
/// text, on exactly `text`.
pub open spec fn runs_on_text(c: &Construction, table: MethodTable, text: Seq<char>) -> bool {
    &&& c.wf()
    &&& c.spec_call().entry == MethodEntry::StringFromUtf8
    &&& c.spec_call().function == table.spec_entry(MethodEntry::StringFromUtf8)
    &&& c.spec_call().args@.len() == 1
    &&& c.spec_call().args@[0]->Text_0@ == text
}

fn single_call(table: &MethodTable, entry: MethodEntry, arg: Operand) -> (r: Construction)
    requires
        operands_fit(entry, seq![arg]),
    ensures
        r.wf(),
        r.spec_call().entry == entry,
        r.spec_call().function == table.spec_entry(entry),
        r.spec_call().args@ == seq![arg],
{
    let mut args: Vec<Operand> = Vec::new();
    args.push(arg);
    Construction::new(ForeignCall { entry, function: table.entry(entry), args })
}

impl GodotString {
    /// Starts an engine string holding the given host text.
    pub fn from_text(table: &MethodTable, text: &str) -> (r: Construction)
        ensures
            runs_on_text(&r, *table, text@),
            r.spec_output() == BuiltinKind::GodotString,
    {
        let owned = text.to_owned();
        single_call(table, MethodEntry::StringFromUtf8, Operand::Text(owned))
    }

    /// Starts the engine string form of a path. The path is left as it was.
    pub fn from_node_path(table: &MethodTable, path: &NodePath) -> (r: Construction)
        ensures
            runs(&r, *table, MethodEntry::StringFromNodePath, seq![Operand::NodePath(*path)]),
            r.spec_output() == BuiltinKind::GodotString,
    {
        single_call(table, MethodEntry::StringFromNodePath, Operand::NodePath(*path))
    }
}

impl NodePath {
    /// Starts the path that an engine string spells. The string is left as it was.
    pub fn from_godot_string(table: &MethodTable, path: &GodotString) -> (r: Construction)
        ensures
            runs(&r, *table, MethodEntry::NodePathFromString, seq![Operand::GodotString(*path)]),
            r.spec_output() == BuiltinKind::NodePath,
    {
        single_call(table, MethodEntry::NodePathFromString, Operand::GodotString(*path))
    }

    /// Starts the path that host text spells: first the engine string holding the text,
    /// then the path built from that string.
    pub fn from_text(table: &MethodTable, text: &str) -> (r: PathFromText)
        ensures
            runs_on_text(r.string_construction(), *table, text@),
            r.spec_table() == *table,
    {
        PathFromText { table: *table, string: GodotString::from_text(table, text) }
    }
}

/// A path being built from host text, while its intermediate engine string is under
/// construction.
#[derive(Debug)]
pub struct PathFromText {
    table: MethodTable,
    string: Construction,
}

impl PathFromText {
    /// The intermediate construction always yields a string.
    #[verifier::type_invariant]
    spec fn builds_string(&self) -> bool {
        self.string.spec_output() == BuiltinKind::GodotString
    }

    /// The construction of the intermediate string.
    pub closed spec fn string_construction(&self) -> &Construction {
        &self.string
    }

    /// The table the path will be built through.
    pub closed spec fn spec_table(&self) -> MethodTable {
        self.table
    }

    /// The construction of the intermediate string, to be run first.
    pub fn string_call(&self) -> (r: &Construction)
        ensures
            r == self.string_construction(),
    {
        &self.string
    }

    /// Completes the intermediate string with the words its engine call initialized,
    /// and starts the path built from that string.
    pub fn then_path(self, words: [u64; 1]) -> (r: Construction)
        ensures
            r.spec_output() == BuiltinKind::NodePath,
            r.wf(),
            r.spec_call().entry == MethodEntry::NodePathFromString,
            r.spec_call().function == self.spec_table().spec_entry(MethodEntry::NodePathFromString),
            r.spec_call().args@.len() == 1,
            r.spec_call().args@[0]->GodotString_0.words() == words@,
    {
        proof {
            use_type_invariant(&self);
        }
        let string = GodotString::from_init(self.string, words);
        NodePath::from_godot_string(&self.table, &string)
    }
}

impl StringName {
    /// Starts the interned name of an engine string. The string is left as it was.
    pub fn from_godot_string(table: &MethodTable, string: &GodotString) -> (r: Construction)
        ensures
            runs(
                &r,
                *table,
                MethodEntry::StringNameFromString,
                seq![Operand::GodotString(*string)],
            ),
            r.spec_output() == BuiltinKind::StringName,
    {
        single_call(table, MethodEntry::StringNameFromString, Operand::GodotString(*string))
    }
}

impl Callable {
    /// Starts a callable that names `method` on `object`.
    pub fn from_object_method(table: &MethodTable, object: ObjectPtr, method: &StringName) -> (r:
        Construction)
        ensures
            runs(
                &r,
                *table,
                MethodEntry::CallableFromObjectMethod,
                seq![Operand::Object(object), Operand::StringName(*method)],
            ),
            r.spec_output() == BuiltinKind::Callable,
    {
        let mut args: Vec<Operand> = Vec::new();
        args.push(Operand::Object(object));
        args.push(Operand::StringName(*method));
        let entry = MethodEntry::CallableFromObjectMethod;
        let r = Construction::new(ForeignCall { entry, function: table.entry(entry), args });
        assert(r.spec_call().args@ =~= seq![Operand::Object(object), Operand::StringName(*method)]);
        r
    }
}

} // verus!
