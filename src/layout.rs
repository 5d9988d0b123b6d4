use vstd::prelude::*;

verus! {

/// The value types that cross the bridge. Their memory layout is dictated by the engine.
#[derive(Clone, Copy, Debug, PartialEq, Eq, Structural)]
pub enum BuiltinKind {
    GodotString,
    Vector2,
    Rect2,
    Rect2i,
    Transform2D,
    Plane,
    Quaternion,
    AABB,
    Basis,
    Transform3D,
    Projection,
    StringName,
    NodePath,
    RID,
    Object,
    Callable,
    Signal,
    Dictionary,
}

/// Size in bytes of a kind, as the engine reports it for 64-bit targets with
/// single-precision real numbers.
pub open spec fn engine_size(k: BuiltinKind) -> nat {
    match k {
        BuiltinKind::GodotString => 8,
        BuiltinKind::Vector2 => 8,
        BuiltinKind::Rect2 => 16,
        BuiltinKind::Rect2i => 16,
        BuiltinKind::Transform2D => 24,
        BuiltinKind::Plane => 16,
        BuiltinKind::Quaternion => 16,
        BuiltinKind::AABB => 24,
        BuiltinKind::Basis => 36,
        BuiltinKind::Transform3D => 48,
        BuiltinKind::Projection => 64,
        BuiltinKind::StringName => 8,
        BuiltinKind::NodePath => 8,
        BuiltinKind::RID => 8,
        BuiltinKind::Object => 8,
        BuiltinKind::Callable => 16,
        BuiltinKind::Signal => 16,
        BuiltinKind::Dictionary => 8,
    }
}

/// Whether a kind is made of 32-bit scalars (real numbers or integers) rather than of
/// pointer-sized handles.
pub open spec fn is_scalar_kind(k: BuiltinKind) -> bool {
    match k {
        BuiltinKind::Vector2 | BuiltinKind::Rect2 | BuiltinKind::Rect2i
        | BuiltinKind::Transform2D | BuiltinKind::Plane | BuiltinKind::Quaternion
        | BuiltinKind::AABB | BuiltinKind::Basis | BuiltinKind::Transform3D
        | BuiltinKind::Projection => true,
        _ => false,
    }
}

/// Alignment in bytes that the engine uses for a kind.
pub open spec fn engine_align(k: BuiltinKind) -> nat {
    if is_scalar_kind(k) {
        4
    } else {
        8
    }
}

/// Width in bytes of one word of the host storage of a kind: storage of scalar kinds is
/// an array of `u32`, that of the other kinds an array of `u64`.
pub open spec fn host_word_width(k: BuiltinKind) -> nat {
    if is_scalar_kind(k) {
        4
    } else {
        8
    }
}

/// Number of words in the host storage of a kind.
pub open spec fn host_word_count(k: BuiltinKind) -> nat {
    match k {
        BuiltinKind::GodotString => 1,
        BuiltinKind::Vector2 => 2,
        BuiltinKind::Rect2 => 4,
        BuiltinKind::Rect2i => 4,
        BuiltinKind::Transform2D => 6,
        BuiltinKind::Plane => 4,
        BuiltinKind::Quaternion => 4,
        BuiltinKind::AABB => 6,
        BuiltinKind::Basis => 9,
        BuiltinKind::Transform3D => 12,
        BuiltinKind::Projection => 16,
        BuiltinKind::StringName => 1,
        BuiltinKind::NodePath => 1,
        BuiltinKind::RID => 1,
        BuiltinKind::Object => 1,
        BuiltinKind::Callable => 2,
        BuiltinKind::Signal => 2,
        BuiltinKind::Dictionary => 1,
    }
}

/// Size in bytes of the host storage of a kind.
pub open spec fn host_size(k: BuiltinKind) -> nat {
    host_word_width(k) * host_word_count(k)
}

/// For every kind, the host storage has exactly the size the engine reports, and its
/// words are as wide as the engine's alignment.
pub proof fn lemma_host_layout_matches_engine(k: BuiltinKind)
    ensures
        host_size(k) == engine_size(k),
        host_word_width(k) == engine_align(k),
{
}

impl BuiltinKind {
    /// Size in bytes of the host storage of this kind.
    pub fn size(self) -> (r: usize)
        ensures
            r == host_size(self),
    {
        match self {
            BuiltinKind::GodotString => 8,
            BuiltinKind::Vector2 => 8,
            BuiltinKind::Rect2 => 16,
            BuiltinKind::Rect2i => 16,
            BuiltinKind::Transform2D => 24,
            BuiltinKind::Plane => 16,
            BuiltinKind::Quaternion => 16,
            BuiltinKind::AABB => 24,
            BuiltinKind::Basis => 36,
            BuiltinKind::Transform3D => 48,
            BuiltinKind::Projection => 64,
            BuiltinKind::StringName => 8,
            BuiltinKind::NodePath => 8,
            BuiltinKind::RID => 8,
            BuiltinKind::Object => 8,
            BuiltinKind::Callable => 16,
            BuiltinKind::Signal => 16,
            BuiltinKind::Dictionary => 8,
        }
    }

    /// Alignment in bytes of the host storage of this kind.
    pub fn align(self) -> (r: usize)
        ensures
            r == host_word_width(self),
    {
        match self {
            BuiltinKind::Vector2 | BuiltinKind::Rect2 | BuiltinKind::Rect2i
            | BuiltinKind::Transform2D | BuiltinKind::Plane | BuiltinKind::Quaternion
            | BuiltinKind::AABB | BuiltinKind::Basis | BuiltinKind::Transform3D
            | BuiltinKind::Projection => 4,
            _ => 8,
        }
    }
}

/// What the engine reports about one kind when the bridge is bound to it.
#[derive(Clone, Copy, Debug, PartialEq, Eq, Structural)]
pub struct LayoutReport {
    pub kind: BuiltinKind,
    pub size: usize,
    pub align: usize,
}

/// A kind whose reported layout differs from the host storage.
#[derive(Clone, Copy, Debug, PartialEq, Eq, Structural)]
pub struct LayoutMismatch {
    pub kind: BuiltinKind,
    pub host_size: usize,
    pub host_align: usize,
    pub reported_size: usize,
    pub reported_align: usize,
}

/// Whether a report agrees with the host storage of its kind.
pub open spec fn report_matches(r: LayoutReport) -> bool {
    r.size == host_size(r.kind) && r.align == host_word_width(r.kind)
}

/// The mismatch that describes a report which disagrees with the host storage.
pub open spec fn mismatch_of(r: LayoutReport) -> LayoutMismatch {
    LayoutMismatch {
        kind: r.kind,
        host_size: host_size(r.kind) as usize,
        host_align: host_word_width(r.kind) as usize,
        reported_size: r.size,
        reported_align: r.align,
    }
}

/// Compares one reported layout with the host storage of its kind.
pub fn check_layout(report: LayoutReport) -> (r: Result<(), LayoutMismatch>)
    ensures
        r is Ok <==> report_matches(report),
        r is Err ==> r->Err_0 == mismatch_of(report),
{
    let host_size = report.kind.size();
    let host_align = report.kind.align();
    if report.size == host_size && report.align == host_align {
        Ok(())
    } else {
        Err(LayoutMismatch {
            kind: report.kind,
            host_size,
            host_align,
            reported_size: report.size,
            reported_align: report.align,
        })
    }
}

/// Checks every report of the engine's layout table, in order, and returns the first
/// disagreement.
pub fn check_handshake(reports: &Vec<LayoutReport>) -> (r: Result<(), LayoutMismatch>)
    ensures
        r is Ok <==> forall|i: int|
            0 <= i < reports@.len() ==> report_matches(#[trigger] reports@[i]),
        r is Err ==> exists|i: int|
            0 <= i < reports@.len() && !report_matches(#[trigger] reports@[i])
                && r->Err_0 == mismatch_of(reports@[i])
                && forall|j: int| 0 <= j < i ==> report_matches(#[trigger] reports@[j]),
{
    let mut i: usize = 0;
    while i < reports.len()
        invariant
            i <= reports@.len(),
            forall|j: int| 0 <= j < i ==> report_matches(#[trigger] reports@[j]),
        decreases reports@.len() - i,
    {
        match check_layout(reports[i]) {
            Ok(()) => {},
            Err(m) => {
                return Err(m);
            },
        }
        i = i + 1;
    }
    Ok(())
}

} // verus!
