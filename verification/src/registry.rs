//! The registry: the closed set of kinds of value that a graph can carry, and
//! the runtime identity and the name of the type that each kind stands for.
//!
//! The kinds are listed in the order in which an identity is matched against
//! them: the unit type first, then each kind of value, then the two kinds that
//! report a result, and last the handle of the execution environment, which is
//! never matched.

use vstd::prelude::*;
use crate::descriptor::{Type, TypeIdentity, TypeModel};

verus! {

/// A kind of value.
#[derive(Clone, Copy, Debug, PartialEq, Eq, Structural)]
pub enum ValueKind {
    /// The unit type: no value.
    Unit,
    /// A 64-bit floating-point number.
    F64,
    /// An unsigned 32-bit number.
    U32,
    /// An unsigned 64-bit number.
    U64,
    /// A truth value.
    Bool,
    /// A string.
    String,
    /// A vector of two numbers.
    DVec2,
    /// A 2x3 affine transform.
    DAffine2,
    /// A number that may be absent.
    OptionalF64,
    /// A vector that may be absent.
    OptionalDVec2,
    /// A sequence of numbers.
    VecF64,
    /// A sequence of unsigned 64-bit numbers.
    VecU64,
    /// A sequence of vectors.
    VecDVec2,
    /// Four numbers.
    F64Array4,
    /// A path of node identifiers.
    NodePath,
    /// A sequence of point identifiers.
    PointIds,
    /// A table of raster images.
    RasterData,
    /// A table of artboards.
    ArtboardGroup,
    /// An artboard.
    Artboard,
    /// A raster image.
    Image,
    /// A color.
    Color,
    /// A color that may be absent.
    OptionalColor,
    /// A sequence of colors.
    Palette,
    /// Vector geometry: a sequence of paths.
    Subpaths,
    /// The paint inside a shape.
    Fill,
    /// A gradient.
    Gradient,
    /// The stops of a gradient.
    GradientStops,
    /// A font.
    Font,
    /// A viewport footprint.
    Footprint,
    /// A font cache, shared by all who read it.
    FontCache,
    /// A blend mode.
    BlendMode,
    /// A named position of a bounding box.
    ReferencePoint,
    /// How an arc is closed.
    ArcType,
    /// The layout of a grid.
    GridType,
    /// How points are merged by distance.
    MergeByDistanceAlgorithm,
    /// The kind of paint of a fill.
    FillType,
    /// The geometry of a gradient.
    GradientType,
    /// The shape of the ends of a stroke.
    StrokeCap,
    /// The shape of the corners of a stroke.
    StrokeJoin,
    /// Where a stroke lies relative to its path.
    StrokeAlign,
    /// The order of stroke and fill.
    PaintOrder,
    /// The kind of noise.
    NoiseType,
    /// How octaves of noise are combined.
    FractalType,
    /// The result of rendering a graph.
    RenderOutput,
    /// A frame on a platform surface.
    SurfaceFrame,
    /// The handle of the shared execution environment.
    EditorApi,
}

impl ValueKind {
    /// The key of the identity of the type that the kind stands for.
    pub open spec fn key(self) -> u64 {
        match self {
            ValueKind::Unit => 0,
            ValueKind::F64 => 1,
            ValueKind::U32 => 2,
            ValueKind::U64 => 3,
            ValueKind::Bool => 4,
            ValueKind::String => 5,
            ValueKind::DVec2 => 6,
            ValueKind::DAffine2 => 7,
            ValueKind::OptionalF64 => 8,
            ValueKind::OptionalDVec2 => 9,
            ValueKind::VecF64 => 10,
            ValueKind::VecU64 => 11,
            ValueKind::VecDVec2 => 12,
            ValueKind::F64Array4 => 13,
            ValueKind::NodePath => 14,
            ValueKind::PointIds => 15,
            ValueKind::RasterData => 16,
            ValueKind::ArtboardGroup => 17,
            ValueKind::Artboard => 18,
            ValueKind::Image => 19,
            ValueKind::Color => 20,
            ValueKind::OptionalColor => 21,
            ValueKind::Palette => 22,
            ValueKind::Subpaths => 23,
            ValueKind::Fill => 24,
            ValueKind::Gradient => 25,
            ValueKind::GradientStops => 26,
            ValueKind::Font => 27,
            ValueKind::Footprint => 28,
            ValueKind::FontCache => 29,
            ValueKind::BlendMode => 30,
            ValueKind::ReferencePoint => 31,
            ValueKind::ArcType => 32,
            ValueKind::GridType => 33,
            ValueKind::MergeByDistanceAlgorithm => 34,
            ValueKind::FillType => 35,
            ValueKind::GradientType => 36,
            ValueKind::StrokeCap => 37,
            ValueKind::StrokeJoin => 38,
            ValueKind::StrokeAlign => 39,
            ValueKind::PaintOrder => 40,
            ValueKind::NoiseType => 41,
            ValueKind::FractalType => 42,
            ValueKind::RenderOutput => 43,
            ValueKind::SurfaceFrame => 44,
            ValueKind::EditorApi => 45,
        }
    }

    /// The identity of the type that the kind stands for.
    pub open spec fn identity_of(self) -> TypeIdentity {
        TypeIdentity { key: self.key() }
    }

    /// The name of the type that the kind stands for.
    pub open spec fn name(self) -> Seq<char> {
        match self {
            ValueKind::Unit => "()"@,
            ValueKind::F64 => "f64"@,
            ValueKind::U32 => "u32"@,
            ValueKind::U64 => "u64"@,
            ValueKind::Bool => "bool"@,
            ValueKind::String => "String"@,
            ValueKind::DVec2 => "DVec2"@,
            ValueKind::DAffine2 => "DAffine2"@,
            ValueKind::OptionalF64 => "Option<f64>"@,
            ValueKind::OptionalDVec2 => "Option<DVec2>"@,
            ValueKind::VecF64 => "Vec<f64>"@,
            ValueKind::VecU64 => "Vec<u64>"@,
            ValueKind::VecDVec2 => "Vec<DVec2>"@,
            ValueKind::F64Array4 => "[f64; 4]"@,
            ValueKind::NodePath => "Vec<NodeId>"@,
            ValueKind::PointIds => "Vec<PointId>"@,
            ValueKind::RasterData => "RasterDataTable"@,
            ValueKind::ArtboardGroup => "ArtboardGroupTable"@,
            ValueKind::Artboard => "Artboard"@,
            ValueKind::Image => "Image"@,
            ValueKind::Color => "Color"@,
            ValueKind::OptionalColor => "Option<Color>"@,
            ValueKind::Palette => "Vec<Color>"@,
            ValueKind::Subpaths => "Vec<Subpath>"@,
            ValueKind::Fill => "Fill"@,
            ValueKind::Gradient => "Gradient"@,
            ValueKind::GradientStops => "GradientStops"@,
            ValueKind::Font => "Font"@,
            ValueKind::Footprint => "Footprint"@,
            ValueKind::FontCache => "Arc<FontCache>"@,
            ValueKind::BlendMode => "BlendMode"@,
            ValueKind::ReferencePoint => "ReferencePoint"@,
            ValueKind::ArcType => "ArcType"@,
            ValueKind::GridType => "GridType"@,
            ValueKind::MergeByDistanceAlgorithm => "MergeByDistanceAlgorithm"@,
            ValueKind::FillType => "FillType"@,
            ValueKind::GradientType => "GradientType"@,
            ValueKind::StrokeCap => "StrokeCap"@,
            ValueKind::StrokeJoin => "StrokeJoin"@,
            ValueKind::StrokeAlign => "StrokeAlign"@,
            ValueKind::PaintOrder => "PaintOrder"@,
            ValueKind::NoiseType => "NoiseType"@,
            ValueKind::FractalType => "FractalType"@,
            ValueKind::RenderOutput => "RenderOutput"@,
            ValueKind::SurfaceFrame => "SurfaceFrame"@,
            ValueKind::EditorApi => "EditorApi"@,
        }
    }

    /// The description of the type that the kind stands for.
    pub open spec fn descriptor(self) -> TypeModel {
        TypeModel::concrete(self.identity_of(), self.name())
    }

    /// Whether a value of the kind can be taken back out of an erased
    /// container: every kind but the handle of the execution environment.
    pub open spec fn recoverable(self) -> bool {
        !(self is EditorApi)
    }

    /// Whether the kind has a default value: the unit type and every kind of
    /// value, but neither of the kinds that report a result, nor the handle of
    /// the execution environment.
    pub open spec fn defaultable(self) -> bool {
        !(self is RenderOutput) && !(self is SurfaceFrame) && !(self is EditorApi)
    }

    /// The kind whose type has the given identity, if there is one.
    pub open spec fn of_identity(id: TypeIdentity) -> Option<ValueKind> {
        if exists|kind: ValueKind| kind.identity_of() == id {
            Some(choose|kind: ValueKind| kind.identity_of() == id)
        } else {
            None
        }
    }

    /// The identity of the type that the kind stands for.
    pub fn identity(&self) -> (r: TypeIdentity)
        ensures
            r == self.identity_of(),
    {
        let key: u64 = match self {
            ValueKind::Unit => 0,
            ValueKind::F64 => 1,
            ValueKind::U32 => 2,
            ValueKind::U64 => 3,
            ValueKind::Bool => 4,
            ValueKind::String => 5,
            ValueKind::DVec2 => 6,
            ValueKind::DAffine2 => 7,
            ValueKind::OptionalF64 => 8,
            ValueKind::OptionalDVec2 => 9,
            ValueKind::VecF64 => 10,
            ValueKind::VecU64 => 11,
            ValueKind::VecDVec2 => 12,
            ValueKind::F64Array4 => 13,
            ValueKind::NodePath => 14,
            ValueKind::PointIds => 15,
            ValueKind::RasterData => 16,
            ValueKind::ArtboardGroup => 17,
            ValueKind::Artboard => 18,
            ValueKind::Image => 19,
            ValueKind::Color => 20,
            ValueKind::OptionalColor => 21,
            ValueKind::Palette => 22,
            ValueKind::Subpaths => 23,
            ValueKind::Fill => 24,
            ValueKind::Gradient => 25,
            ValueKind::GradientStops => 26,
            ValueKind::Font => 27,
            ValueKind::Footprint => 28,
            ValueKind::FontCache => 29,
            ValueKind::BlendMode => 30,
            ValueKind::ReferencePoint => 31,
            ValueKind::ArcType => 32,
            ValueKind::GridType => 33,
            ValueKind::MergeByDistanceAlgorithm => 34,
            ValueKind::FillType => 35,
            ValueKind::GradientType => 36,
            ValueKind::StrokeCap => 37,
            ValueKind::StrokeJoin => 38,
            ValueKind::StrokeAlign => 39,
            ValueKind::PaintOrder => 40,
            ValueKind::NoiseType => 41,
            ValueKind::FractalType => 42,
            ValueKind::RenderOutput => 43,
            ValueKind::SurfaceFrame => 44,
            ValueKind::EditorApi => 45,
        };
        TypeIdentity { key }
    }

    /// The name of the type that the kind stands for.
    pub fn name_text(&self) -> (r: &'static str)
        ensures
            r@ == self.name(),
    {
        match self {
            ValueKind::Unit => "()",
            ValueKind::F64 => "f64",
            ValueKind::U32 => "u32",
            ValueKind::U64 => "u64",
            ValueKind::Bool => "bool",
            ValueKind::String => "String",
            ValueKind::DVec2 => "DVec2",
            ValueKind::DAffine2 => "DAffine2",
            ValueKind::OptionalF64 => "Option<f64>",
            ValueKind::OptionalDVec2 => "Option<DVec2>",
            ValueKind::VecF64 => "Vec<f64>",
            ValueKind::VecU64 => "Vec<u64>",
            ValueKind::VecDVec2 => "Vec<DVec2>",
            ValueKind::F64Array4 => "[f64; 4]",
            ValueKind::NodePath => "Vec<NodeId>",
            ValueKind::PointIds => "Vec<PointId>",
            ValueKind::RasterData => "RasterDataTable",
            ValueKind::ArtboardGroup => "ArtboardGroupTable",
            ValueKind::Artboard => "Artboard",
            ValueKind::Image => "Image",
            ValueKind::Color => "Color",
            ValueKind::OptionalColor => "Option<Color>",
            ValueKind::Palette => "Vec<Color>",
            ValueKind::Subpaths => "Vec<Subpath>",
            ValueKind::Fill => "Fill",
            ValueKind::Gradient => "Gradient",
            ValueKind::GradientStops => "GradientStops",
            ValueKind::Font => "Font",
            ValueKind::Footprint => "Footprint",
            ValueKind::FontCache => "Arc<FontCache>",
            ValueKind::BlendMode => "BlendMode",
            ValueKind::ReferencePoint => "ReferencePoint",
            ValueKind::ArcType => "ArcType",
            ValueKind::GridType => "GridType",
            ValueKind::MergeByDistanceAlgorithm => "MergeByDistanceAlgorithm",
            ValueKind::FillType => "FillType",
            ValueKind::GradientType => "GradientType",
            ValueKind::StrokeCap => "StrokeCap",
            ValueKind::StrokeJoin => "StrokeJoin",
            ValueKind::StrokeAlign => "StrokeAlign",
            ValueKind::PaintOrder => "PaintOrder",
            ValueKind::NoiseType => "NoiseType",
            ValueKind::FractalType => "FractalType",
            ValueKind::RenderOutput => "RenderOutput",
            ValueKind::SurfaceFrame => "SurfaceFrame",
            ValueKind::EditorApi => "EditorApi",
        }
    }

    /// The description of the type that the kind stands for.
    pub fn ty(&self) -> (r: Type)
        ensures
            r@ == self.descriptor(),
    {
        Type::concrete(self.identity(), self.name_text())
    }

    /// Matches an identity against the kinds, in the order of the registry,
    /// and gives the kind whose type it is the identity of.
    pub fn with_identity(id: TypeIdentity) -> (r: Option<ValueKind>)
        ensures
            r == ValueKind::of_identity(id),
            match r {
                Some(kind) => kind.identity_of() == id,
                None => forall|kind: ValueKind| kind.identity_of() != id,
            },
    {
        let r = match id.key {
            0 => Some(ValueKind::Unit),
            1 => Some(ValueKind::F64),
            2 => Some(ValueKind::U32),
            3 => Some(ValueKind::U64),
            4 => Some(ValueKind::Bool),
            5 => Some(ValueKind::String),
            6 => Some(ValueKind::DVec2),
            7 => Some(ValueKind::DAffine2),
            8 => Some(ValueKind::OptionalF64),
            9 => Some(ValueKind::OptionalDVec2),
            10 => Some(ValueKind::VecF64),
            11 => Some(ValueKind::VecU64),
            12 => Some(ValueKind::VecDVec2),
            13 => Some(ValueKind::F64Array4),
            14 => Some(ValueKind::NodePath),
            15 => Some(ValueKind::PointIds),
            16 => Some(ValueKind::RasterData),
            17 => Some(ValueKind::ArtboardGroup),
            18 => Some(ValueKind::Artboard),
            19 => Some(ValueKind::Image),
            20 => Some(ValueKind::Color),
            21 => Some(ValueKind::OptionalColor),
            22 => Some(ValueKind::Palette),
            23 => Some(ValueKind::Subpaths),
            24 => Some(ValueKind::Fill),
            25 => Some(ValueKind::Gradient),
            26 => Some(ValueKind::GradientStops),
            27 => Some(ValueKind::Font),
            28 => Some(ValueKind::Footprint),
            29 => Some(ValueKind::FontCache),
            30 => Some(ValueKind::BlendMode),
            31 => Some(ValueKind::ReferencePoint),
            32 => Some(ValueKind::ArcType),
            33 => Some(ValueKind::GridType),
            34 => Some(ValueKind::MergeByDistanceAlgorithm),
            35 => Some(ValueKind::FillType),
            36 => Some(ValueKind::GradientType),
            37 => Some(ValueKind::StrokeCap),
            38 => Some(ValueKind::StrokeJoin),
            39 => Some(ValueKind::StrokeAlign),
            40 => Some(ValueKind::PaintOrder),
            41 => Some(ValueKind::NoiseType),
            42 => Some(ValueKind::FractalType),
            43 => Some(ValueKind::RenderOutput),
            44 => Some(ValueKind::SurfaceFrame),
            45 => Some(ValueKind::EditorApi),
            _ => None,
        };
        proof {
            match r {
                Some(kind) => {
                    assert(kind.identity_of() == id);
                    lemma_one_kind_per_identity(
                        kind,
                        choose|other: ValueKind| other.identity_of() == id,
                    );
                },
                None => {
                    assert forall|kind: ValueKind| kind.identity_of() != id by {
                        lemma_keys_are_small(kind);
                    }
                },
            }
        }
        r
    }

    /// Whether a value of the kind can be taken back out of an erased
    /// container.
    pub fn is_recoverable(&self) -> (r: bool)
        ensures
            r == self.recoverable(),
    {
        match self {
            ValueKind::EditorApi => false,
            _ => true,
        }
    }

    /// Whether the kind has a default value.
    pub fn is_defaultable(&self) -> (r: bool)
        ensures
            r == self.defaultable(),
    {
        match self {
            ValueKind::RenderOutput | ValueKind::SurfaceFrame | ValueKind::EditorApi => false,
            _ => true,
        }
    }
}

/// The number of kinds in the registry.
pub const KIND_COUNT: u64 = 46;

/// The keys of the kinds are the numbers below the number of kinds.
pub proof fn lemma_keys_are_small(kind: ValueKind)
    ensures
        kind.key() < KIND_COUNT,
{
}

/// The registry is one to one: two kinds whose types have the same identity
/// are the same kind.
pub proof fn lemma_one_kind_per_identity(a: ValueKind, b: ValueKind)
    requires
        a.identity_of() == b.identity_of(),
    ensures
        a == b,
{
}

/// The registry is onto the keys below the number of kinds: each of them is
/// the key of a kind. Together with the previous law, kinds and the
/// identities of the registry correspond one to one.
pub proof fn lemma_every_small_key_is_a_kind(key: u64)
    requires
        key < KIND_COUNT,
    ensures
        ValueKind::of_identity(TypeIdentity { key }) is Some,
        ValueKind::of_identity(TypeIdentity { key }).unwrap().key() == key,
{
    let id = TypeIdentity { key };
    let witness = kind_with_key(key);
    assert(witness.identity_of() == id);
}

/// Looking up the identity of a kind gives the kind back.
pub proof fn lemma_identity_round_trip(kind: ValueKind)
    ensures
        ValueKind::of_identity(kind.identity_of()) == Some(kind),
{
    let id = kind.identity_of();
    assert(kind.identity_of() == id);
    lemma_one_kind_per_identity(kind, choose|other: ValueKind| other.identity_of() == id);
}

/// An identity that is no kind's has a key that is not below the number of
/// kinds.
pub proof fn lemma_foreign_identity(id: TypeIdentity)
    ensures
        ValueKind::of_identity(id) is None <==> id.key >= KIND_COUNT,
{
    if id.key < KIND_COUNT {
        lemma_every_small_key_is_a_kind(id.key);
    } else {
        assert forall|kind: ValueKind| kind.identity_of() != id by {
            lemma_keys_are_small(kind);
        }
    }
}

spec fn kind_with_key(key: u64) -> ValueKind {
    if key < 23 {
        low_kind(key)
    } else {
        high_kind(key)
    }
}

spec fn low_kind(key: u64) -> ValueKind {
    if key == 0 {
        ValueKind::Unit
    } else if key == 1 {
        ValueKind::F64
    } else if key == 2 {
        ValueKind::U32
    } else if key == 3 {
        ValueKind::U64
    } else if key == 4 {
        ValueKind::Bool
    } else if key == 5 {
        ValueKind::String
    } else if key == 6 {
        ValueKind::DVec2
    } else if key == 7 {
        ValueKind::DAffine2
    } else if key == 8 {
        ValueKind::OptionalF64
    } else if key == 9 {
        ValueKind::OptionalDVec2
    } else if key == 10 {
        ValueKind::VecF64
    } else if key == 11 {
        ValueKind::VecU64
    } else if key == 12 {
        ValueKind::VecDVec2
    } else if key == 13 {
        ValueKind::F64Array4
    } else if key == 14 {
        ValueKind::NodePath
    } else if key == 15 {
        ValueKind::PointIds
    } else if key == 16 {
        ValueKind::RasterData
    } else if key == 17 {
        ValueKind::ArtboardGroup
    } else if key == 18 {
        ValueKind::Artboard
    } else if key == 19 {
        ValueKind::Image
    } else if key == 20 {
        ValueKind::Color
    } else if key == 21 {
        ValueKind::OptionalColor
    } else {
        ValueKind::Palette
    }
}

spec fn high_kind(key: u64) -> ValueKind {
    if key == 23 {
        ValueKind::Subpaths
    } else if key == 24 {
        ValueKind::Fill
    } else if key == 25 {
        ValueKind::Gradient
    } else if key == 26 {
        ValueKind::GradientStops
    } else if key == 27 {
        ValueKind::Font
    } else if key == 28 {
        ValueKind::Footprint
    } else if key == 29 {
        ValueKind::FontCache
    } else if key == 30 {
        ValueKind::BlendMode
    } else if key == 31 {
        ValueKind::ReferencePoint
    } else if key == 32 {
        ValueKind::ArcType
    } else if key == 33 {
        ValueKind::GridType
    } else if key == 34 {
        ValueKind::MergeByDistanceAlgorithm
    } else if key == 35 {
        ValueKind::FillType
    } else if key == 36 {
        ValueKind::GradientType
    } else if key == 37 {
        ValueKind::StrokeCap
    } else if key == 38 {
        ValueKind::StrokeJoin
    } else if key == 39 {
        ValueKind::StrokeAlign
    } else if key == 40 {
        ValueKind::PaintOrder
    } else if key == 41 {
        ValueKind::NoiseType
    } else if key == 42 {
        ValueKind::FractalType
    } else if key == 43 {
        ValueKind::RenderOutput
    } else if key == 44 {
        ValueKind::SurfaceFrame
    } else {
        ValueKind::EditorApi
    }
}

} // verus!
