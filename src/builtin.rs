use vstd::prelude::*;

use crate::construct::Construction;
use crate::layout::{host_word_count, BuiltinKind};

verus! {

/// A two-component vector as the engine stores it: each component is the bit pattern of
/// a single-precision real number. The bridge moves these bits and never interprets them.
#[derive(Clone, Copy, Debug, PartialEq, Eq, Structural)]
pub struct Vector2 {
    pub x: u32,
    pub y: u32,
}

impl Vector2 {
    /// A vector from the bit patterns of its two components.
    pub fn from_bits(x: u32, y: u32) -> (r: Vector2)
        ensures
            r.x == x,
            r.y == y,
    {
        Vector2 { x, y }
    }
}

/// The field arrangement the engine uses for a rectangle: its position, then its size.
#[derive(Clone, Copy, Debug, PartialEq, Eq, Structural)]
pub struct InnerRect {
    pub position: Vector2,
    pub size: Vector2,
}

/// An axis-aligned rectangle, held as the engine's four words.
#[derive(Clone, Copy, Debug)]
pub struct Rect2 {
    pub(crate) opaque: [u32; 4],
}

/// The words of a rectangle laid out as position, then size.
pub open spec fn rect_words(inner: InnerRect) -> Seq<u32> {
    seq![inner.position.x, inner.position.y, inner.size.x, inner.size.y]
}

/// The field arrangement read back from a rectangle's words.
pub open spec fn inner_of_words(w: Seq<u32>) -> InnerRect {
    InnerRect { position: Vector2 { x: w[0], y: w[1] }, size: Vector2 { x: w[2], y: w[3] } }
}

impl Rect2 {
    /// The storage words of this value, as the engine reads them.
    pub fn to_words(self) -> (r: [u32; 4])
        ensures
            r@ == self.words(),
    {
        self.opaque
    }

    /// The storage words of this rectangle.
    pub closed spec fn words(self) -> Seq<u32> {
        self.opaque@
    }

    /// Reinterprets the words of a rectangle as its position and size.
    fn inner(self) -> (r: InnerRect)
        ensures
            r == inner_of_words(self.words()),
    {
        InnerRect {
            position: Vector2 { x: self.opaque[0], y: self.opaque[1] },
            size: Vector2 { x: self.opaque[2], y: self.opaque[3] },
        }
    }

    /// The size of the rectangle: the last two words of its storage.
    pub fn size(self) -> (r: Vector2)
        ensures
            r == inner_of_words(self.words()).size,
            r.x == self.words()[2],
            r.y == self.words()[3],
    {
        self.inner().size
    }

    /// Reinterprets a position and size as a rectangle.
    pub fn from_inner(inner: InnerRect) -> (r: Rect2)
        ensures
            r.words() == rect_words(inner),
    {
        let r = Rect2 {
            opaque: [inner.position.x, inner.position.y, inner.size.x, inner.size.y],
        };
        assert(r.words() =~= rect_words(inner));
        r
    }
}

/// A rectangle whose words were laid out from a position and a size reads back as that
/// position and size: in particular its projected size is the size supplied.
pub proof fn lemma_projection_round_trip(r: Rect2, inner: InnerRect)
    requires
        r.words() == rect_words(inner),
    ensures
        inner_of_words(r.words()) == inner,
        inner_of_words(r.words()).size == inner.size,
{
}

/// An axis-aligned rectangle with integer coordinates.
/// Held as the engine's words, never read field by field.
#[derive(Clone, Copy, Debug)]
pub struct Rect2i {
    pub(crate) opaque: [u32; 4],
}

impl Rect2i {
    /// The storage words of this value, as the engine reads them.
    pub fn to_words(self) -> (r: [u32; 4])
        ensures
            r@ == self.words(),
    {
        self.opaque
    }

    /// The storage words of this value.
    pub closed spec fn words(self) -> Seq<u32> {
        self.opaque@
    }
}

/// A 2D affine transform.
/// Held as the engine's words, never read field by field.
#[derive(Clone, Copy, Debug)]
pub struct Transform2D {
    pub(crate) opaque: [u32; 6],
}

impl Transform2D {
    /// The storage words of this value, as the engine reads them.
    pub fn to_words(self) -> (r: [u32; 6])
        ensures
            r@ == self.words(),
    {
        self.opaque
    }

    /// The storage words of this value.
    pub closed spec fn words(self) -> Seq<u32> {
        self.opaque@
    }
}

/// A plane in normal and distance form.
/// Held as the engine's words, never read field by field.
#[derive(Clone, Copy, Debug)]
pub struct Plane {
    pub(crate) opaque: [u32; 4],
}

impl Plane {
    /// The storage words of this value, as the engine reads them.
    pub fn to_words(self) -> (r: [u32; 4])
        ensures
            r@ == self.words(),
    {
        self.opaque
    }

    /// The storage words of this value.
    pub closed spec fn words(self) -> Seq<u32> {
        self.opaque@
    }
}

/// A rotation quaternion.
/// Held as the engine's words, never read field by field.
#[derive(Clone, Copy, Debug)]
pub struct Quaternion {
    pub(crate) opaque: [u32; 4],
}

impl Quaternion {
    /// The storage words of this value, as the engine reads them.
    pub fn to_words(self) -> (r: [u32; 4])
        ensures
            r@ == self.words(),
    {
        self.opaque
    }

    /// The storage words of this value.
    pub closed spec fn words(self) -> Seq<u32> {
        self.opaque@
    }
}

/// An axis-aligned box in 3D.
/// Held as the engine's words, never read field by field.
#[derive(Clone, Copy, Debug)]
pub struct AABB {
    pub(crate) opaque: [u32; 6],
}

impl AABB {
    /// The storage words of this value, as the engine reads them.
    pub fn to_words(self) -> (r: [u32; 6])
        ensures
            r@ == self.words(),
    {
        self.opaque
    }

    /// The storage words of this value.
    pub closed spec fn words(self) -> Seq<u32> {
        self.opaque@
    }
}

/// A 3x3 matrix.
/// Held as the engine's words, never read field by field.
#[derive(Clone, Copy, Debug)]
pub struct Basis {
    pub(crate) opaque: [u32; 9],
}

impl Basis {
    /// The storage words of this value, as the engine reads them.
    pub fn to_words(self) -> (r: [u32; 9])
        ensures
            r@ == self.words(),
    {
        self.opaque
    }

    /// The storage words of this value.
    pub closed spec fn words(self) -> Seq<u32> {
        self.opaque@
    }
}

/// A 3D affine transform.
/// Held as the engine's words, never read field by field.
#[derive(Clone, Copy, Debug)]
pub struct Transform3D {
    pub(crate) opaque: [u32; 12],
}

impl Transform3D {
    /// The storage words of this value, as the engine reads them.
    pub fn to_words(self) -> (r: [u32; 12])
        ensures
            r@ == self.words(),
    {
        self.opaque
    }

    /// The storage words of this value.
    pub closed spec fn words(self) -> Seq<u32> {
        self.opaque@
    }
}

/// A 4x4 projection matrix.
/// Held as the engine's words, never read field by field.
#[derive(Clone, Copy, Debug)]
pub struct Projection {
    pub(crate) opaque: [u32; 16],
}

impl Projection {
    /// The storage words of this value, as the engine reads them.
    pub fn to_words(self) -> (r: [u32; 16])
        ensures
            r@ == self.words(),
    {
        self.opaque
    }

    /// The storage words of this value.
    pub closed spec fn words(self) -> Seq<u32> {
        self.opaque@
    }
}

/// An engine string, a handle to reference-counted text.
/// Held as the engine's words, never read field by field.
#[derive(Clone, Copy, Debug)]
pub struct GodotString {
    pub(crate) opaque: [u64; 1],
}

impl GodotString {
    /// Completes a string construction with the words its engine call initialized.
    pub fn from_init(c: Construction, words: [u64; 1]) -> (r: GodotString)
        requires
            c.spec_output() == BuiltinKind::GodotString,
        ensures
            r.words() == words@,
    {
        GodotString { opaque: words }
    }

    /// The storage words of this value, as the engine reads them.
    pub fn to_words(self) -> (r: [u64; 1])
        ensures
            r@ == self.words(),
    {
        self.opaque
    }

    /// The storage words of this value.
    pub closed spec fn words(self) -> Seq<u64> {
        self.opaque@
    }
}

/// An interned engine string.
/// Held as the engine's words, never read field by field.
#[derive(Clone, Copy, Debug)]
pub struct StringName {
    pub(crate) opaque: [u64; 1],
}

impl StringName {
    /// Completes a string name construction with the words its engine call initialized.
    pub fn from_init(c: Construction, words: [u64; 1]) -> (r: StringName)
        requires
            c.spec_output() == BuiltinKind::StringName,
        ensures
            r.words() == words@,
    {
        StringName { opaque: words }
    }

    /// The storage words of this value, as the engine reads them.
    pub fn to_words(self) -> (r: [u64; 1])
        ensures
            r@ == self.words(),
    {
        self.opaque
    }

    /// The storage words of this value.
    pub closed spec fn words(self) -> Seq<u64> {
        self.opaque@
    }
}

/// A path to a node or property, a handle to engine-owned data.
/// Held as the engine's words, never read field by field.
#[derive(Clone, Copy, Debug)]
pub struct NodePath {
    pub(crate) opaque: [u64; 1],
}

impl NodePath {
    /// Completes a path construction with the words its engine call initialized.
    pub fn from_init(c: Construction, words: [u64; 1]) -> (r: NodePath)
        requires
            c.spec_output() == BuiltinKind::NodePath,
        ensures
            r.words() == words@,
    {
        NodePath { opaque: words }
    }

    /// The storage words of this value, as the engine reads them.
    pub fn to_words(self) -> (r: [u64; 1])
        ensures
            r@ == self.words(),
    {
        self.opaque
    }

    /// The storage words of this value.
    pub closed spec fn words(self) -> Seq<u64> {
        self.opaque@
    }
}

/// An identifier of an engine resource.
/// Held as the engine's words, never read field by field.
#[derive(Clone, Copy, Debug)]
pub struct RID {
    pub(crate) opaque: [u64; 1],
}

impl RID {
    /// The storage words of this value, as the engine reads them.
    pub fn to_words(self) -> (r: [u64; 1])
        ensures
            r@ == self.words(),
    {
        self.opaque
    }

    /// The storage words of this value.
    pub closed spec fn words(self) -> Seq<u64> {
        self.opaque@
    }
}

/// A reference to a method of an object.
/// Held as the engine's words, never read field by field.
#[derive(Clone, Copy, Debug)]
pub struct Callable {
    pub(crate) opaque: [u64; 2],
}

impl Callable {
    /// Completes a callable construction with the words its engine call initialized.
    pub fn from_init(c: Construction, words: [u64; 2]) -> (r: Callable)
        requires
            c.spec_output() == BuiltinKind::Callable,
        ensures
            r.words() == words@,
    {
        Callable { opaque: words }
    }

    /// The storage words of this value, as the engine reads them.
    pub fn to_words(self) -> (r: [u64; 2])
        ensures
            r@ == self.words(),
    {
        self.opaque
    }

    /// The storage words of this value.
    pub closed spec fn words(self) -> Seq<u64> {
        self.opaque@
    }
}

/// A reference to a signal of an object.
/// Held as the engine's words, never read field by field.
#[derive(Clone, Copy, Debug)]
pub struct Signal {
    pub(crate) opaque: [u64; 2],
}

impl Signal {
    /// The storage words of this value, as the engine reads them.
    pub fn to_words(self) -> (r: [u64; 2])
        ensures
            r@ == self.words(),
    {
        self.opaque
    }

    /// The storage words of this value.
    pub closed spec fn words(self) -> Seq<u64> {
        self.opaque@
    }
}

/// An engine dictionary, a handle to reference-counted data.
/// Held as the engine's words, never read field by field.
#[derive(Clone, Copy, Debug)]
pub struct Dictionary {
    pub(crate) opaque: [u64; 1],
}

impl Dictionary {
    /// The storage words of this value, as the engine reads them.
    pub fn to_words(self) -> (r: [u64; 1])
        ensures
            r@ == self.words(),
    {
        self.opaque
    }

    /// The storage words of this value.
    pub closed spec fn words(self) -> Seq<u64> {
        self.opaque@
    }
}
/// The storage of every bridged value type holds exactly the number of words that the
/// layout table gives for its kind.
pub proof fn lemma_storage_word_counts()
    ensures
        forall|v: Rect2| #[trigger] v.words().len()
            == host_word_count(BuiltinKind::Rect2),
        forall|v: Rect2i| #[trigger] v.words().len()
            == host_word_count(BuiltinKind::Rect2i),
        forall|v: Transform2D| #[trigger] v.words().len()
            == host_word_count(BuiltinKind::Transform2D),
        forall|v: Plane| #[trigger] v.words().len()
            == host_word_count(BuiltinKind::Plane),
        forall|v: Quaternion| #[trigger] v.words().len()
            == host_word_count(BuiltinKind::Quaternion),
        forall|v: AABB| #[trigger] v.words().len()
            == host_word_count(BuiltinKind::AABB),
        forall|v: Basis| #[trigger] v.words().len()
            == host_word_count(BuiltinKind::Basis),
        forall|v: Transform3D| #[trigger] v.words().len()
            == host_word_count(BuiltinKind::Transform3D),
        forall|v: Projection| #[trigger] v.words().len()
            == host_word_count(BuiltinKind::Projection),
        forall|v: GodotString| #[trigger] v.words().len()
            == host_word_count(BuiltinKind::GodotString),
        forall|v: StringName| #[trigger] v.words().len()
            == host_word_count(BuiltinKind::StringName),
        forall|v: NodePath| #[trigger] v.words().len()
            == host_word_count(BuiltinKind::NodePath),
        forall|v: RID| #[trigger] v.words().len()
            == host_word_count(BuiltinKind::RID),
        forall|v: Callable| #[trigger] v.words().len()
            == host_word_count(BuiltinKind::Callable),
        forall|v: Signal| #[trigger] v.words().len()
            == host_word_count(BuiltinKind::Signal),
        forall|v: Dictionary| #[trigger] v.words().len()
            == host_word_count(BuiltinKind::Dictionary),
{
    broadcast use vstd::array::array_len_matches_n;
}
} // verus!
