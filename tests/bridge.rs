use std::cell::Cell;

use godot_core::builtin::{
    Callable, GodotString, InnerRect, NodePath, Rect2, StringName, Vector2, AABB, Basis,
    Dictionary, Plane, Projection, Quaternion, Rect2i, Signal, Transform2D, Transform3D, RID,
};
use godot_core::construct::{Construction, ObjectPtr, Operand};
use godot_core::convert::PathFromText;
use godot_core::layout::{check_handshake, check_layout, BuiltinKind, LayoutMismatch, LayoutReport};
use godot_core::table::{FnHandle, MethodEntry, MethodTable, TableCell};

fn table() -> MethodTable {
    MethodTable {
        string_from_utf8: FnHandle { address: 0x1000 },
        node_path_from_string: FnHandle { address: 0x2000 },
        string_from_node_path: FnHandle { address: 0x3000 },
        string_name_from_string: FnHandle { address: 0x4000 },
        callable_from_object_method: FnHandle { address: 0x5000 },
    }
}

fn make_string(text: &str, words: [u64; 1]) -> GodotString {
    GodotString::from_init(GodotString::from_text(&table(), text), words)
}

fn make_path(words: [u64; 1]) -> NodePath {
    let s = make_string("/root/Node", [11]);
    NodePath::from_init(NodePath::from_godot_string(&table(), &s), words)
}

fn only_arg(c: &Construction) -> &Operand {
    assert_eq!(c.call().args.len(), 1);
    &c.call().args[0]
}

#[test]
fn host_storage_matches_reported_sizes() {
    assert_eq!(std::mem::size_of::<Rect2>(), BuiltinKind::Rect2.size());
    assert_eq!(std::mem::size_of::<Rect2i>(), BuiltinKind::Rect2i.size());
    assert_eq!(std::mem::size_of::<Transform2D>(), BuiltinKind::Transform2D.size());
    assert_eq!(std::mem::size_of::<Plane>(), BuiltinKind::Plane.size());
    assert_eq!(std::mem::size_of::<Quaternion>(), BuiltinKind::Quaternion.size());
    assert_eq!(std::mem::size_of::<AABB>(), BuiltinKind::AABB.size());
    assert_eq!(std::mem::size_of::<Basis>(), BuiltinKind::Basis.size());
    assert_eq!(std::mem::size_of::<Transform3D>(), BuiltinKind::Transform3D.size());
    assert_eq!(std::mem::size_of::<Projection>(), BuiltinKind::Projection.size());
    assert_eq!(std::mem::size_of::<GodotString>(), BuiltinKind::GodotString.size());
    assert_eq!(std::mem::size_of::<StringName>(), BuiltinKind::StringName.size());
    assert_eq!(std::mem::size_of::<NodePath>(), BuiltinKind::NodePath.size());
    assert_eq!(std::mem::size_of::<RID>(), BuiltinKind::RID.size());
    assert_eq!(std::mem::size_of::<Callable>(), BuiltinKind::Callable.size());
    assert_eq!(std::mem::size_of::<Signal>(), BuiltinKind::Signal.size());
    assert_eq!(std::mem::size_of::<Dictionary>(), BuiltinKind::Dictionary.size());
    assert_eq!(std::mem::size_of::<Vector2>(), BuiltinKind::Vector2.size());
}

#[test]
fn host_storage_matches_reported_alignment() {
    assert_eq!(std::mem::align_of::<Rect2>(), BuiltinKind::Rect2.align());
    assert_eq!(std::mem::align_of::<Basis>(), BuiltinKind::Basis.align());
    assert_eq!(std::mem::align_of::<Projection>(), BuiltinKind::Projection.align());
    assert_eq!(std::mem::align_of::<NodePath>(), BuiltinKind::NodePath.align());
    assert_eq!(std::mem::align_of::<Callable>(), BuiltinKind::Callable.align());
    assert_eq!(std::mem::align_of::<GodotString>(), BuiltinKind::GodotString.align());
    assert_eq!(std::mem::align_of::<Vector2>(), BuiltinKind::Vector2.align());
}

#[test]
fn reported_sizes_of_kinds() {
    assert_eq!(BuiltinKind::Rect2.size(), 16);
    assert_eq!(BuiltinKind::Basis.size(), 36);
    assert_eq!(BuiltinKind::Projection.size(), 64);
    assert_eq!(BuiltinKind::NodePath.size(), 8);
    assert_eq!(BuiltinKind::Callable.size(), 16);
    assert_eq!(BuiltinKind::Rect2.align(), 4);
    assert_eq!(BuiltinKind::Dictionary.align(), 8);
}

#[test]
fn layout_check_accepts_matching_report() {
    let report = LayoutReport { kind: BuiltinKind::Transform3D, size: 48, align: 4 };
    assert_eq!(check_layout(report), Ok(()));
}

#[test]
fn layout_check_rejects_wrong_size() {
    let report = LayoutReport { kind: BuiltinKind::Rect2, size: 32, align: 4 };
    assert_eq!(
        check_layout(report),
        Err(LayoutMismatch {
            kind: BuiltinKind::Rect2,
            host_size: 16,
            host_align: 4,
            reported_size: 32,
            reported_align: 4,
        })
    );
}

#[test]
fn layout_check_rejects_wrong_alignment() {
    let report = LayoutReport { kind: BuiltinKind::NodePath, size: 8, align: 4 };
    assert!(check_layout(report).is_err());
}

#[test]
fn handshake_reports_first_mismatch() {
    let reports = vec![
        LayoutReport { kind: BuiltinKind::GodotString, size: 8, align: 8 },
        LayoutReport { kind: BuiltinKind::Callable, size: 24, align: 8 },
        LayoutReport { kind: BuiltinKind::Basis, size: 48, align: 4 },
    ];
    let err = check_handshake(&reports).unwrap_err();
    assert_eq!(err.kind, BuiltinKind::Callable);
    assert_eq!(err.host_size, 16);
    assert_eq!(err.reported_size, 24);
}

#[test]
fn handshake_accepts_matching_and_empty_tables() {
    assert_eq!(check_handshake(&vec![]), Ok(()));
    let reports = vec![
        LayoutReport { kind: BuiltinKind::Rect2, size: 16, align: 4 },
        LayoutReport { kind: BuiltinKind::Projection, size: 64, align: 4 },
        LayoutReport { kind: BuiltinKind::RID, size: 8, align: 8 },
    ];
    assert_eq!(check_handshake(&reports), Ok(()));
}

#[test]
fn rect_size_is_the_size_it_was_built_from() {
    let position = Vector2::from_bits(1.5f32.to_bits(), (-2.0f32).to_bits());
    let size = Vector2::from_bits(640.0f32.to_bits(), 480.0f32.to_bits());
    let rect = Rect2::from_inner(InnerRect { position, size });
    let got = rect.size();
    assert_eq!(got, size);
    assert_eq!(f32::from_bits(got.x), 640.0);
    assert_eq!(f32::from_bits(got.y), 480.0);
}

#[test]
fn rect_words_are_position_then_size() {
    let rect = Rect2::from_inner(InnerRect {
        position: Vector2::from_bits(1, 2),
        size: Vector2::from_bits(3, 4),
    });
    assert_eq!(rect.to_words(), [1, 2, 3, 4]);
    assert_eq!(rect.size(), Vector2::from_bits(3, 4));
}

#[test]
fn resolve_loads_once_and_keeps_the_table() {
    let loads = Cell::new(0u32);
    let mut cell = TableCell::new();
    assert!(!cell.is_resolved());
    let first = cell.resolve(|| {
        loads.set(loads.get() + 1);
        table()
    });
    assert!(cell.is_resolved());
    for _ in 0..5 {
        let again = cell.resolve(|| {
            loads.set(loads.get() + 1);
            MethodTable { string_from_utf8: FnHandle { address: 7 }, ..table() }
        });
        assert_eq!(again, first);
    }
    assert_eq!(first, table());
    assert_eq!(loads.get(), 1);
}

#[test]
fn table_entry_lookup() {
    let t = table();
    assert_eq!(t.entry(MethodEntry::StringFromUtf8).address, 0x1000);
    assert_eq!(t.entry(MethodEntry::NodePathFromString).address, 0x2000);
    assert_eq!(t.entry(MethodEntry::StringFromNodePath).address, 0x3000);
    assert_eq!(t.entry(MethodEntry::StringNameFromString).address, 0x4000);
    assert_eq!(t.entry(MethodEntry::CallableFromObjectMethod).address, 0x5000);
}

#[test]
fn string_from_text_passes_the_text() {
    let c = GodotString::from_text(&table(), "a/b/c");
    assert_eq!(c.call().entry, MethodEntry::StringFromUtf8);
    assert_eq!(c.call().function.address, 0x1000);
    assert_eq!(c.output(), BuiltinKind::GodotString);
    match only_arg(&c) {
        Operand::Text(t) => assert_eq!(t, "a/b/c"),
        other => panic!("unexpected operand {:?}", other),
    }
}

#[test]
fn path_from_string_passes_the_string() {
    let s = make_string("/root", [42]);
    let c = NodePath::from_godot_string(&table(), &s);
    assert_eq!(c.call().entry, MethodEntry::NodePathFromString);
    assert_eq!(c.call().function.address, 0x2000);
    assert_eq!(c.output(), BuiltinKind::NodePath);
    match only_arg(&c) {
        Operand::GodotString(g) => assert_eq!(g.to_words(), [42]),
        other => panic!("unexpected operand {:?}", other),
    }
    assert_eq!(s.to_words(), [42]);
    let path = NodePath::from_init(c, [77]);
    assert_eq!(path.to_words(), [77]);
}

#[test]
fn string_from_path_passes_the_path() {
    let path = make_path([9]);
    let c = GodotString::from_node_path(&table(), &path);
    assert_eq!(c.call().entry, MethodEntry::StringFromNodePath);
    assert_eq!(c.call().function.address, 0x3000);
    assert_eq!(c.output(), BuiltinKind::GodotString);
    match only_arg(&c) {
        Operand::NodePath(p) => assert_eq!(p.to_words(), [9]),
        other => panic!("unexpected operand {:?}", other),
    }
    assert_eq!(path.to_words(), [9]);
}

#[test]
fn path_from_text_runs_two_calls() {
    let plan: PathFromText = NodePath::from_text(&table(), "/root/Node");
    let first = plan.string_call();
    assert_eq!(first.call().entry, MethodEntry::StringFromUtf8);
    match only_arg(first) {
        Operand::Text(t) => assert_eq!(t, "/root/Node"),
        other => panic!("unexpected operand {:?}", other),
    }
    let second = plan.then_path([123]);
    assert_eq!(second.call().entry, MethodEntry::NodePathFromString);
    assert_eq!(second.call().function.address, 0x2000);
    assert_eq!(second.output(), BuiltinKind::NodePath);
    match only_arg(&second) {
        Operand::GodotString(g) => assert_eq!(g.to_words(), [123]),
        other => panic!("unexpected operand {:?}", other),
    }
}

#[test]
fn path_from_empty_text() {
    let plan = NodePath::from_text(&table(), "");
    match only_arg(plan.string_call()) {
        Operand::Text(t) => assert!(t.is_empty()),
        other => panic!("unexpected operand {:?}", other),
    }
}

#[test]
fn callable_from_object_method_passes_object_and_name() {
    let s = make_string("on_pressed", [5]);
    let name = StringName::from_init(StringName::from_godot_string(&table(), &s), [6]);
    let object = ObjectPtr { address: 0xdead_beef };
    let c = Callable::from_object_method(&table(), object, &name);
    assert_eq!(c.call().entry, MethodEntry::CallableFromObjectMethod);
    assert_eq!(c.call().function.address, 0x5000);
    assert_eq!(c.output(), BuiltinKind::Callable);
    assert_eq!(c.call().args.len(), 2);
    match &c.call().args[0] {
        Operand::Object(o) => assert_eq!(*o, object),
        other => panic!("unexpected operand {:?}", other),
    }
    match &c.call().args[1] {
        Operand::StringName(n) => assert_eq!(n.to_words(), [6]),
        other => panic!("unexpected operand {:?}", other),
    }
    let callable = Callable::from_init(c, [1, 2]);
    assert_eq!(callable.to_words(), [1, 2]);
}

#[test]
fn string_name_from_string_passes_the_string() {
    let s = make_string("ready", [8]);
    let c = StringName::from_godot_string(&table(), &s);
    assert_eq!(c.call().entry, MethodEntry::StringNameFromString);
    assert_eq!(c.call().function.address, 0x4000);
    assert_eq!(c.output(), BuiltinKind::StringName);
}
