//! Tagged values: the closed set of values that flow between the nodes of a
//! graph, each variant with one type of payload.
//!
//! The model of a tagged value, its view, has the same variants; where the
//! payload owns vectors or strings the model holds sequences.

use vstd::prelude::*;
use vstd::string::*;
use std::sync::Arc;
use crate::choices::{
    ArcType, BlendMode, FillType, FractalType, GradientType, GridType, MergeByDistanceAlgorithm,
    NoiseType, PaintOrder, ReferencePoint, StrokeAlign, StrokeCap, StrokeJoin,
};
use crate::color::Color;
use crate::descriptor::{Type, TypeModel};
use crate::font_cache::{FontCache, FontCacheModel};
use crate::graphics::{
    clone_artboards, clone_raster, clone_subpaths, Artboard, ArtboardModel, RasterInstance,
    RasterInstanceModel, Subpath, SubpathModel,
};
use crate::hash::models;
use crate::primitives::{Affine2, EnvironmentHandle, FloatBits, NodeId, PointId, Vector2};
use crate::registry::{lemma_identity_round_trip, ValueKind};
use crate::render::{RenderOutput, RenderOutputModel, SurfaceFrame};
use crate::replicate::share;
use crate::style::{
    default_stops, Fill, FillModel, Font, FontModel, Footprint, Gradient, GradientModel,
    GradientStop, GradientStops, Image, ImageModel,
};

verus! {

/// The error of asking a tagged value for a payload of a type that it does
/// not hold.
#[derive(Clone, Copy, Debug, PartialEq, Eq, Structural)]
pub struct TaggedValueTypeError;

/// A value that a graph can carry.
#[derive(Debug, PartialEq, Eq)]
pub enum TaggedValue {
    /// No value: the unit type.
    Unit,
    /// A 64-bit floating-point number.
    F64(FloatBits),
    /// An unsigned 32-bit number.
    U32(u32),
    /// An unsigned 64-bit number.
    U64(u64),
    /// A truth value.
    Bool(bool),
    /// A string.
    String(String),
    /// A vector of two numbers.
    DVec2(Vector2),
    /// A 2x3 affine transform.
    DAffine2(Affine2),
    /// A number that may be absent.
    OptionalF64(Option<FloatBits>),
    /// A vector that may be absent.
    OptionalDVec2(Option<Vector2>),
    /// A sequence of numbers.
    VecF64(Vec<FloatBits>),
    /// A sequence of unsigned 64-bit numbers.
    VecU64(Vec<u64>),
    /// A sequence of vectors.
    VecDVec2(Vec<Vector2>),
    /// Four numbers.
    F64Array4([FloatBits; 4]),
    /// A path of node identifiers.
    NodePath(Vec<NodeId>),
    /// A sequence of point identifiers.
    PointIds(Vec<PointId>),
    /// A table of raster images.
    RasterData(Vec<RasterInstance>),
    /// A table of artboards.
    ArtboardGroup(Vec<Artboard>),
    /// An artboard.
    Artboard(Artboard),
    /// A raster image.
    Image(Image),
    /// A color.
    Color(Color),
    /// A color that may be absent.
    OptionalColor(Option<Color>),
    /// A sequence of colors.
    Palette(Vec<Color>),
    /// Vector geometry: a sequence of paths.
    Subpaths(Vec<Subpath>),
    /// The paint inside a shape.
    Fill(Fill),
    /// A gradient.
    Gradient(Gradient),
    /// The stops of a gradient.
    GradientStops(GradientStops),
    /// A font.
    Font(Font),
    /// A viewport footprint.
    Footprint(Footprint),
    /// A font cache, shared by all who read it.
    FontCache(Arc<FontCache>),
    /// A blend mode.
    BlendMode(BlendMode),
    /// A named position of a bounding box.
    ReferencePoint(ReferencePoint),
    /// How an arc is closed.
    ArcType(ArcType),
    /// The layout of a grid.
    GridType(GridType),
    /// How points are merged by distance.
    MergeByDistanceAlgorithm(MergeByDistanceAlgorithm),
    /// The kind of paint of a fill.
    FillType(FillType),
    /// The geometry of a gradient.
    GradientType(GradientType),
    /// The shape of the ends of a stroke.
    StrokeCap(StrokeCap),
    /// The shape of the corners of a stroke.
    StrokeJoin(StrokeJoin),
    /// Where a stroke lies relative to its path.
    StrokeAlign(StrokeAlign),
    /// The order of stroke and fill.
    PaintOrder(PaintOrder),
    /// The kind of noise.
    NoiseType(NoiseType),
    /// How octaves of noise are combined.
    FractalType(FractalType),
    /// The result of rendering a graph.
    RenderOutput(RenderOutput),
    /// A frame on a platform surface.
    SurfaceFrame(SurfaceFrame),
    /// The handle of the shared execution environment. It is never written to a document.
    EditorApi(EnvironmentHandle),
}

/// The model of a [`TaggedValue`].
pub enum ValueModel {
    Unit,
    F64(FloatBits),
    U32(u32),
    U64(u64),
    Bool(bool),
    String(Seq<char>),
    DVec2(Vector2),
    DAffine2(Affine2),
    OptionalF64(Option<FloatBits>),
    OptionalDVec2(Option<Vector2>),
    VecF64(Seq<FloatBits>),
    VecU64(Seq<u64>),
    VecDVec2(Seq<Vector2>),
    F64Array4(Seq<FloatBits>),
    NodePath(Seq<NodeId>),
    PointIds(Seq<PointId>),
    RasterData(Seq<RasterInstanceModel>),
    ArtboardGroup(Seq<ArtboardModel>),
    Artboard(ArtboardModel),
    Image(ImageModel),
    Color(Color),
    OptionalColor(Option<Color>),
    Palette(Seq<Color>),
    Subpaths(Seq<SubpathModel>),
    Fill(FillModel),
    Gradient(GradientModel),
    GradientStops(Seq<GradientStop>),
    Font(FontModel),
    Footprint(Footprint),
    FontCache(FontCacheModel),
    BlendMode(BlendMode),
    ReferencePoint(ReferencePoint),
    ArcType(ArcType),
    GridType(GridType),
    MergeByDistanceAlgorithm(MergeByDistanceAlgorithm),
    FillType(FillType),
    GradientType(GradientType),
    StrokeCap(StrokeCap),
    StrokeJoin(StrokeJoin),
    StrokeAlign(StrokeAlign),
    PaintOrder(PaintOrder),
    NoiseType(NoiseType),
    FractalType(FractalType),
    RenderOutput(RenderOutputModel),
    SurfaceFrame(SurfaceFrame),
    EditorApi(EnvironmentHandle),
}

impl View for TaggedValue {
    type V = ValueModel;

    open spec fn view(&self) -> ValueModel {
        match self {
            TaggedValue::Unit => ValueModel::Unit,
            TaggedValue::F64(x) => ValueModel::F64(*x),
            TaggedValue::U32(x) => ValueModel::U32(*x),
            TaggedValue::U64(x) => ValueModel::U64(*x),
            TaggedValue::Bool(x) => ValueModel::Bool(*x),
            TaggedValue::String(x) => ValueModel::String(x@),
            TaggedValue::DVec2(x) => ValueModel::DVec2(*x),
            TaggedValue::DAffine2(x) => ValueModel::DAffine2(*x),
            TaggedValue::OptionalF64(x) => ValueModel::OptionalF64(*x),
            TaggedValue::OptionalDVec2(x) => ValueModel::OptionalDVec2(*x),
            TaggedValue::VecF64(x) => ValueModel::VecF64(x@),
            TaggedValue::VecU64(x) => ValueModel::VecU64(x@),
            TaggedValue::VecDVec2(x) => ValueModel::VecDVec2(x@),
            TaggedValue::F64Array4(x) => ValueModel::F64Array4(x@),
            TaggedValue::NodePath(x) => ValueModel::NodePath(x@),
            TaggedValue::PointIds(x) => ValueModel::PointIds(x@),
            TaggedValue::RasterData(x) => ValueModel::RasterData(models(x@)),
            TaggedValue::ArtboardGroup(x) => ValueModel::ArtboardGroup(models(x@)),
            TaggedValue::Artboard(x) => ValueModel::Artboard(x@),
            TaggedValue::Image(x) => ValueModel::Image(x@),
            TaggedValue::Color(x) => ValueModel::Color(*x),
            TaggedValue::OptionalColor(x) => ValueModel::OptionalColor(*x),
            TaggedValue::Palette(x) => ValueModel::Palette(x@),
            TaggedValue::Subpaths(x) => ValueModel::Subpaths(models(x@)),
            TaggedValue::Fill(x) => ValueModel::Fill(x@),
            TaggedValue::Gradient(x) => ValueModel::Gradient(x@),
            TaggedValue::GradientStops(x) => ValueModel::GradientStops(x@),
            TaggedValue::Font(x) => ValueModel::Font(x@),
            TaggedValue::Footprint(x) => ValueModel::Footprint(*x),
            TaggedValue::FontCache(x) => ValueModel::FontCache(x@),
            TaggedValue::BlendMode(x) => ValueModel::BlendMode(*x),
            TaggedValue::ReferencePoint(x) => ValueModel::ReferencePoint(*x),
            TaggedValue::ArcType(x) => ValueModel::ArcType(*x),
            TaggedValue::GridType(x) => ValueModel::GridType(*x),
            TaggedValue::MergeByDistanceAlgorithm(x) => ValueModel::MergeByDistanceAlgorithm(*x),
            TaggedValue::FillType(x) => ValueModel::FillType(*x),
            TaggedValue::GradientType(x) => ValueModel::GradientType(*x),
            TaggedValue::StrokeCap(x) => ValueModel::StrokeCap(*x),
            TaggedValue::StrokeJoin(x) => ValueModel::StrokeJoin(*x),
            TaggedValue::StrokeAlign(x) => ValueModel::StrokeAlign(*x),
            TaggedValue::PaintOrder(x) => ValueModel::PaintOrder(*x),
            TaggedValue::NoiseType(x) => ValueModel::NoiseType(*x),
            TaggedValue::FractalType(x) => ValueModel::FractalType(*x),
            TaggedValue::RenderOutput(x) => ValueModel::RenderOutput(x@),
            TaggedValue::SurfaceFrame(x) => ValueModel::SurfaceFrame(*x),
            TaggedValue::EditorApi(x) => ValueModel::EditorApi(*x),
        }
    }
}

impl ValueModel {
    /// The kind of the value.
    pub open spec fn kind(self) -> ValueKind {
        match self {
            ValueModel::Unit => ValueKind::Unit,
            ValueModel::F64(_) => ValueKind::F64,
            ValueModel::U32(_) => ValueKind::U32,
            ValueModel::U64(_) => ValueKind::U64,
            ValueModel::Bool(_) => ValueKind::Bool,
            ValueModel::String(_) => ValueKind::String,
            ValueModel::DVec2(_) => ValueKind::DVec2,
            ValueModel::DAffine2(_) => ValueKind::DAffine2,
            ValueModel::OptionalF64(_) => ValueKind::OptionalF64,
            ValueModel::OptionalDVec2(_) => ValueKind::OptionalDVec2,
            ValueModel::VecF64(_) => ValueKind::VecF64,
            ValueModel::VecU64(_) => ValueKind::VecU64,
            ValueModel::VecDVec2(_) => ValueKind::VecDVec2,
            ValueModel::F64Array4(_) => ValueKind::F64Array4,
            ValueModel::NodePath(_) => ValueKind::NodePath,
            ValueModel::PointIds(_) => ValueKind::PointIds,
            ValueModel::RasterData(_) => ValueKind::RasterData,
            ValueModel::ArtboardGroup(_) => ValueKind::ArtboardGroup,
            ValueModel::Artboard(_) => ValueKind::Artboard,
            ValueModel::Image(_) => ValueKind::Image,
            ValueModel::Color(_) => ValueKind::Color,
            ValueModel::OptionalColor(_) => ValueKind::OptionalColor,
            ValueModel::Palette(_) => ValueKind::Palette,
            ValueModel::Subpaths(_) => ValueKind::Subpaths,
            ValueModel::Fill(_) => ValueKind::Fill,
            ValueModel::Gradient(_) => ValueKind::Gradient,
            ValueModel::GradientStops(_) => ValueKind::GradientStops,
            ValueModel::Font(_) => ValueKind::Font,
            ValueModel::Footprint(_) => ValueKind::Footprint,
            ValueModel::FontCache(_) => ValueKind::FontCache,
            ValueModel::BlendMode(_) => ValueKind::BlendMode,
            ValueModel::ReferencePoint(_) => ValueKind::ReferencePoint,
            ValueModel::ArcType(_) => ValueKind::ArcType,
            ValueModel::GridType(_) => ValueKind::GridType,
            ValueModel::MergeByDistanceAlgorithm(_) => ValueKind::MergeByDistanceAlgorithm,
            ValueModel::FillType(_) => ValueKind::FillType,
            ValueModel::GradientType(_) => ValueKind::GradientType,
            ValueModel::StrokeCap(_) => ValueKind::StrokeCap,
            ValueModel::StrokeJoin(_) => ValueKind::StrokeJoin,
            ValueModel::StrokeAlign(_) => ValueKind::StrokeAlign,
            ValueModel::PaintOrder(_) => ValueKind::PaintOrder,
            ValueModel::NoiseType(_) => ValueKind::NoiseType,
            ValueModel::FractalType(_) => ValueKind::FractalType,
            ValueModel::RenderOutput(_) => ValueKind::RenderOutput,
            ValueModel::SurfaceFrame(_) => ValueKind::SurfaceFrame,
            ValueModel::EditorApi(_) => ValueKind::EditorApi,
        }
    }

    /// The default value of a kind, for the kinds that have one.
    pub open spec fn initial(kind: ValueKind) -> Option<ValueModel> {
        match kind {
            ValueKind::Unit => Some(ValueModel::Unit),
            ValueKind::F64 => Some(ValueModel::F64(FloatBits::zero())),
            ValueKind::U32 => Some(ValueModel::U32(0)),
            ValueKind::U64 => Some(ValueModel::U64(0)),
            ValueKind::Bool => Some(ValueModel::Bool(false)),
            ValueKind::String => Some(ValueModel::String(Seq::empty())),
            ValueKind::DVec2 => Some(ValueModel::DVec2(Vector2::zero())),
            ValueKind::DAffine2 => Some(ValueModel::DAffine2(Affine2::identity())),
            ValueKind::OptionalF64 => Some(ValueModel::OptionalF64(None)),
            ValueKind::OptionalDVec2 => Some(ValueModel::OptionalDVec2(None)),
            ValueKind::VecF64 => Some(ValueModel::VecF64(Seq::empty())),
            ValueKind::VecU64 => Some(ValueModel::VecU64(Seq::empty())),
            ValueKind::VecDVec2 => Some(ValueModel::VecDVec2(Seq::empty())),
            ValueKind::F64Array4 => Some(ValueModel::F64Array4(Seq::new(4, |i: int| FloatBits::zero()))),
            ValueKind::NodePath => Some(ValueModel::NodePath(Seq::empty())),
            ValueKind::PointIds => Some(ValueModel::PointIds(Seq::empty())),
            ValueKind::RasterData => Some(ValueModel::RasterData(Seq::empty())),
            ValueKind::ArtboardGroup => Some(ValueModel::ArtboardGroup(Seq::empty())),
            ValueKind::Artboard => Some(ValueModel::Artboard(ArtboardModel::initial())),
            ValueKind::Image => Some(ValueModel::Image(ImageModel::empty())),
            ValueKind::Color => Some(ValueModel::Color(Color::rgba(0, 0, 0, 0))),
            ValueKind::OptionalColor => Some(ValueModel::OptionalColor(None)),
            ValueKind::Palette => Some(ValueModel::Palette(Seq::empty())),
            ValueKind::Subpaths => Some(ValueModel::Subpaths(Seq::empty())),
            ValueKind::Fill => Some(ValueModel::Fill(FillModel::NoFill)),
            ValueKind::Gradient => Some(ValueModel::Gradient(GradientModel::initial())),
            ValueKind::GradientStops => Some(ValueModel::GradientStops(default_stops())),
            ValueKind::Font => Some(ValueModel::Font(FontModel::initial())),
            ValueKind::Footprint => Some(ValueModel::Footprint(Footprint::initial())),
            ValueKind::FontCache => Some(ValueModel::FontCache(FontCacheModel::empty())),
            ValueKind::BlendMode => Some(ValueModel::BlendMode(BlendMode::Normal)),
            ValueKind::ReferencePoint => Some(ValueModel::ReferencePoint(ReferencePoint::NoPoint)),
            ValueKind::ArcType => Some(ValueModel::ArcType(ArcType::Open)),
            ValueKind::GridType => Some(ValueModel::GridType(GridType::Rectangular)),
            ValueKind::MergeByDistanceAlgorithm => Some(ValueModel::MergeByDistanceAlgorithm(MergeByDistanceAlgorithm::Spatial)),
            ValueKind::FillType => Some(ValueModel::FillType(FillType::Solid)),
            ValueKind::GradientType => Some(ValueModel::GradientType(GradientType::Linear)),
            ValueKind::StrokeCap => Some(ValueModel::StrokeCap(StrokeCap::Butt)),
            ValueKind::StrokeJoin => Some(ValueModel::StrokeJoin(StrokeJoin::Miter)),
            ValueKind::StrokeAlign => Some(ValueModel::StrokeAlign(StrokeAlign::Center)),
            ValueKind::PaintOrder => Some(ValueModel::PaintOrder(PaintOrder::StrokeAbove)),
            ValueKind::NoiseType => Some(ValueModel::NoiseType(NoiseType::Perlin)),
            ValueKind::FractalType => Some(ValueModel::FractalType(FractalType::NoFractal)),
            ValueKind::RenderOutput => None,
            ValueKind::SurfaceFrame => None,
            ValueKind::EditorApi => None,
        }
    }

    /// The default value for a description: that of the kind whose type the
    /// innermost description is, where that is a concrete type of the
    /// registry and the kind has a default.
    pub open spec fn from_type(ty: TypeModel) -> Option<ValueModel> {
        match ty.identity() {
            Some(id) => match ValueKind::of_identity(id) {
                Some(kind) => ValueModel::initial(kind),
                None => None,
            },
            None => None,
        }
    }
}

fn zero_array() -> (r: [FloatBits; 4])
    ensures
        r@ == Seq::new(4, |i: int| FloatBits::zero()),
{
    let zero = FloatBits { bits: 0 };
    let r = [zero, zero, zero, zero];
    assert(r@ =~= Seq::new(4, |i: int| FloatBits::zero()));
    r
}

impl TaggedValue {
    /// The kind of the value.
    pub fn kind(&self) -> (r: ValueKind)
        ensures
            r == self@.kind(),
    {
        match self {
            TaggedValue::Unit => ValueKind::Unit,
            TaggedValue::F64(_) => ValueKind::F64,
            TaggedValue::U32(_) => ValueKind::U32,
            TaggedValue::U64(_) => ValueKind::U64,
            TaggedValue::Bool(_) => ValueKind::Bool,
            TaggedValue::String(_) => ValueKind::String,
            TaggedValue::DVec2(_) => ValueKind::DVec2,
            TaggedValue::DAffine2(_) => ValueKind::DAffine2,
            TaggedValue::OptionalF64(_) => ValueKind::OptionalF64,
            TaggedValue::OptionalDVec2(_) => ValueKind::OptionalDVec2,
            TaggedValue::VecF64(_) => ValueKind::VecF64,
            TaggedValue::VecU64(_) => ValueKind::VecU64,
            TaggedValue::VecDVec2(_) => ValueKind::VecDVec2,
            TaggedValue::F64Array4(_) => ValueKind::F64Array4,
            TaggedValue::NodePath(_) => ValueKind::NodePath,
            TaggedValue::PointIds(_) => ValueKind::PointIds,
            TaggedValue::RasterData(_) => ValueKind::RasterData,
            TaggedValue::ArtboardGroup(_) => ValueKind::ArtboardGroup,
            TaggedValue::Artboard(_) => ValueKind::Artboard,
            TaggedValue::Image(_) => ValueKind::Image,
            TaggedValue::Color(_) => ValueKind::Color,
            TaggedValue::OptionalColor(_) => ValueKind::OptionalColor,
            TaggedValue::Palette(_) => ValueKind::Palette,
            TaggedValue::Subpaths(_) => ValueKind::Subpaths,
            TaggedValue::Fill(_) => ValueKind::Fill,
            TaggedValue::Gradient(_) => ValueKind::Gradient,
            TaggedValue::GradientStops(_) => ValueKind::GradientStops,
            TaggedValue::Font(_) => ValueKind::Font,
            TaggedValue::Footprint(_) => ValueKind::Footprint,
            TaggedValue::FontCache(_) => ValueKind::FontCache,
            TaggedValue::BlendMode(_) => ValueKind::BlendMode,
            TaggedValue::ReferencePoint(_) => ValueKind::ReferencePoint,
            TaggedValue::ArcType(_) => ValueKind::ArcType,
            TaggedValue::GridType(_) => ValueKind::GridType,
            TaggedValue::MergeByDistanceAlgorithm(_) => ValueKind::MergeByDistanceAlgorithm,
            TaggedValue::FillType(_) => ValueKind::FillType,
            TaggedValue::GradientType(_) => ValueKind::GradientType,
            TaggedValue::StrokeCap(_) => ValueKind::StrokeCap,
            TaggedValue::StrokeJoin(_) => ValueKind::StrokeJoin,
            TaggedValue::StrokeAlign(_) => ValueKind::StrokeAlign,
            TaggedValue::PaintOrder(_) => ValueKind::PaintOrder,
            TaggedValue::NoiseType(_) => ValueKind::NoiseType,
            TaggedValue::FractalType(_) => ValueKind::FractalType,
            TaggedValue::RenderOutput(_) => ValueKind::RenderOutput,
            TaggedValue::SurfaceFrame(_) => ValueKind::SurfaceFrame,
            TaggedValue::EditorApi(_) => ValueKind::EditorApi,
        }
    }

    /// The description of the type of the payload: a concrete type with the
    /// identity and the name that the registry gives to the kind of the value.
    pub fn ty(&self) -> (r: Type)
        ensures
            r@ == self@.kind().descriptor(),
    {
        self.kind().ty()
    }

    /// The default value of a kind. The two kinds that report a result and
    /// the handle of the execution environment have none.
    pub fn default_of(kind: ValueKind) -> (r: Option<TaggedValue>)
        ensures
            match (r, ValueModel::initial(kind)) {
                (Some(value), Some(model)) => value@ == model,
                (None, None) => true,
                _ => false,
            },
            r is Some <==> kind.defaultable(),
    {
        match kind {
            ValueKind::Unit => Some(TaggedValue::Unit),
            ValueKind::F64 => Some(TaggedValue::F64(FloatBits::default())),
            ValueKind::U32 => Some(TaggedValue::U32(0)),
            ValueKind::U64 => Some(TaggedValue::U64(0)),
            ValueKind::Bool => Some(TaggedValue::Bool(false)),
            ValueKind::String => Some(TaggedValue::String(String::new())),
            ValueKind::DVec2 => Some(TaggedValue::DVec2(Vector2::default())),
            ValueKind::DAffine2 => Some(TaggedValue::DAffine2(Affine2::default())),
            ValueKind::OptionalF64 => Some(TaggedValue::OptionalF64(None)),
            ValueKind::OptionalDVec2 => Some(TaggedValue::OptionalDVec2(None)),
            ValueKind::VecF64 => Some(TaggedValue::VecF64(Vec::new())),
            ValueKind::VecU64 => Some(TaggedValue::VecU64(Vec::new())),
            ValueKind::VecDVec2 => Some(TaggedValue::VecDVec2(Vec::new())),
            ValueKind::F64Array4 => Some(TaggedValue::F64Array4(zero_array())),
            ValueKind::NodePath => Some(TaggedValue::NodePath(Vec::new())),
            ValueKind::PointIds => Some(TaggedValue::PointIds(Vec::new())),
            ValueKind::RasterData => {
                let empty: Vec<RasterInstance> = Vec::new();
                assert(models(empty@) =~= Seq::empty());
                Some(TaggedValue::RasterData(empty))
            },
            ValueKind::ArtboardGroup => {
                let empty: Vec<Artboard> = Vec::new();
                assert(models(empty@) =~= Seq::empty());
                Some(TaggedValue::ArtboardGroup(empty))
            },
            ValueKind::Artboard => Some(TaggedValue::Artboard(Artboard::default())),
            ValueKind::Image => Some(TaggedValue::Image(Image::default())),
            ValueKind::Color => Some(TaggedValue::Color(Color::default())),
            ValueKind::OptionalColor => Some(TaggedValue::OptionalColor(None)),
            ValueKind::Palette => Some(TaggedValue::Palette(Vec::new())),
            ValueKind::Subpaths => {
                let empty: Vec<Subpath> = Vec::new();
                assert(models(empty@) =~= Seq::empty());
                Some(TaggedValue::Subpaths(empty))
            },
            ValueKind::Fill => Some(TaggedValue::Fill(Fill::default())),
            ValueKind::Gradient => Some(TaggedValue::Gradient(Gradient::default())),
            ValueKind::GradientStops => Some(TaggedValue::GradientStops(GradientStops::default())),
            ValueKind::Font => Some(TaggedValue::Font(Font::default())),
            ValueKind::Footprint => Some(TaggedValue::Footprint(Footprint::default())),
            ValueKind::FontCache => Some(TaggedValue::FontCache(Arc::new(FontCache::default()))),
            ValueKind::BlendMode => Some(TaggedValue::BlendMode(BlendMode::default())),
            ValueKind::ReferencePoint => Some(TaggedValue::ReferencePoint(ReferencePoint::default())),
            ValueKind::ArcType => Some(TaggedValue::ArcType(ArcType::default())),
            ValueKind::GridType => Some(TaggedValue::GridType(GridType::default())),
            ValueKind::MergeByDistanceAlgorithm => Some(TaggedValue::MergeByDistanceAlgorithm(MergeByDistanceAlgorithm::default())),
            ValueKind::FillType => Some(TaggedValue::FillType(FillType::default())),
            ValueKind::GradientType => Some(TaggedValue::GradientType(GradientType::default())),
            ValueKind::StrokeCap => Some(TaggedValue::StrokeCap(StrokeCap::default())),
            ValueKind::StrokeJoin => Some(TaggedValue::StrokeJoin(StrokeJoin::default())),
            ValueKind::StrokeAlign => Some(TaggedValue::StrokeAlign(StrokeAlign::default())),
            ValueKind::PaintOrder => Some(TaggedValue::PaintOrder(PaintOrder::default())),
            ValueKind::NoiseType => Some(TaggedValue::NoiseType(NoiseType::default())),
            ValueKind::FractalType => Some(TaggedValue::FractalType(FractalType::default())),
            ValueKind::RenderOutput => None,
            ValueKind::SurfaceFrame => None,
            ValueKind::EditorApi => None,
        }
    }

    /// The default value for a description. A function and a deferred value
    /// are resolved to what they give first. A placeholder, a concrete type
    /// without identity, a type that the registry does not know and a kind
    /// without default give `None`.
    pub fn from_type(input: &Type) -> (r: Option<TaggedValue>)
        ensures
            match (r, ValueModel::from_type(input@)) {
                (Some(value), Some(model)) => value@ == model,
                (None, None) => true,
                _ => false,
            },
    {
        match input.identity() {
            Some(id) => match ValueKind::with_identity(id) {
                Some(kind) => TaggedValue::default_of(kind),
                None => None,
            },
            None => None,
        }
    }

    /// The default value for a description, or the unit value where the
    /// description has none.
    pub fn from_type_or_none(input: &Type) -> (r: TaggedValue)
        ensures
            r@ == match ValueModel::from_type(input@) {
                Some(model) => model,
                None => ValueModel::Unit,
            },
    {
        match TaggedValue::from_type(input) {
            Some(value) => value,
            None => TaggedValue::Unit,
        }
    }

    /// The payload of an unsigned 32-bit value.
    pub fn to_u32(&self) -> (r: u32)
        requires
            self@ is U32,
        ensures
            self@ == ValueModel::U32(r),
    {
        match self {
            TaggedValue::U32(x) => *x,
            _ => 0,
        }
    }

    /// The payload, where the value is of the variant `F64`.
    pub fn as_f64(&self) -> (r: Result<FloatBits, TaggedValueTypeError>)
        ensures
            match r {
                Ok(x) => self@ == ValueModel::F64(x),
                Err(_) => !(self@ is F64),
            },
    {
        match self {
            TaggedValue::F64(x) => Ok(*x),
            _ => Err(TaggedValueTypeError),
        }
    }

    /// The payload, where the value is of the variant `U32`.
    pub fn as_u32(&self) -> (r: Result<u32, TaggedValueTypeError>)
        ensures
            match r {
                Ok(x) => self@ == ValueModel::U32(x),
                Err(_) => !(self@ is U32),
            },
    {
        match self {
            TaggedValue::U32(x) => Ok(*x),
            _ => Err(TaggedValueTypeError),
        }
    }

    /// The payload, where the value is of the variant `U64`.
    pub fn as_u64(&self) -> (r: Result<u64, TaggedValueTypeError>)
        ensures
            match r {
                Ok(x) => self@ == ValueModel::U64(x),
                Err(_) => !(self@ is U64),
            },
    {
        match self {
            TaggedValue::U64(x) => Ok(*x),
            _ => Err(TaggedValueTypeError),
        }
    }

    /// The payload, where the value is of the variant `Bool`.
    pub fn as_bool(&self) -> (r: Result<bool, TaggedValueTypeError>)
        ensures
            match r {
                Ok(x) => self@ == ValueModel::Bool(x),
                Err(_) => !(self@ is Bool),
            },
    {
        match self {
            TaggedValue::Bool(x) => Ok(*x),
            _ => Err(TaggedValueTypeError),
        }
    }

    /// The payload, where the value is of the variant `DVec2`.
    pub fn as_dvec2(&self) -> (r: Result<Vector2, TaggedValueTypeError>)
        ensures
            match r {
                Ok(x) => self@ == ValueModel::DVec2(x),
                Err(_) => !(self@ is DVec2),
            },
    {
        match self {
            TaggedValue::DVec2(x) => Ok(*x),
            _ => Err(TaggedValueTypeError),
        }
    }

    /// The payload, where the value is of the variant `Color`.
    pub fn as_color(&self) -> (r: Result<Color, TaggedValueTypeError>)
        ensures
            match r {
                Ok(x) => self@ == ValueModel::Color(x),
                Err(_) => !(self@ is Color),
            },
    {
        match self {
            TaggedValue::Color(x) => Ok(*x),
            _ => Err(TaggedValueTypeError),
        }
    }

    /// The payload, where the value is of the variant `String`.
    pub fn as_string(&self) -> (r: Result<&String, TaggedValueTypeError>)
        ensures
            match r {
                Ok(x) => self@ == ValueModel::String(x@),
                Err(_) => !(self@ is String),
            },
    {
        match self {
            TaggedValue::String(x) => Ok(x),
            _ => Err(TaggedValueTypeError),
        }
    }
}

impl Clone for TaggedValue {
    /// A copy of the value. A font cache is not copied: the copy is another
    /// holder of the same cache.
    #[verifier::rlimit(50)]
    fn clone(&self) -> (r: TaggedValue)
        ensures
            r@ == self@,
    {
        match self {
            TaggedValue::Unit => TaggedValue::Unit,
            TaggedValue::F64(x) => TaggedValue::F64(*x),
            TaggedValue::U32(x) => TaggedValue::U32(*x),
            TaggedValue::U64(x) => TaggedValue::U64(*x),
            TaggedValue::Bool(x) => TaggedValue::Bool(*x),
            TaggedValue::String(x) => TaggedValue::String(x.clone()),
            TaggedValue::DVec2(x) => TaggedValue::DVec2(*x),
            TaggedValue::DAffine2(x) => TaggedValue::DAffine2(*x),
            TaggedValue::OptionalF64(x) => TaggedValue::OptionalF64(*x),
            TaggedValue::OptionalDVec2(x) => TaggedValue::OptionalDVec2(*x),
            TaggedValue::VecF64(x) => TaggedValue::VecF64(x.clone()),
            TaggedValue::VecU64(x) => TaggedValue::VecU64(x.clone()),
            TaggedValue::VecDVec2(x) => TaggedValue::VecDVec2(x.clone()),
            TaggedValue::F64Array4(x) => TaggedValue::F64Array4(*x),
            TaggedValue::NodePath(x) => TaggedValue::NodePath(x.clone()),
            TaggedValue::PointIds(x) => TaggedValue::PointIds(x.clone()),
            TaggedValue::RasterData(x) => TaggedValue::RasterData(clone_raster(x)),
            TaggedValue::ArtboardGroup(x) => TaggedValue::ArtboardGroup(clone_artboards(x)),
            TaggedValue::Artboard(x) => TaggedValue::Artboard(x.clone()),
            TaggedValue::Image(x) => TaggedValue::Image(x.clone()),
            TaggedValue::Color(x) => TaggedValue::Color(*x),
            TaggedValue::OptionalColor(x) => TaggedValue::OptionalColor(*x),
            TaggedValue::Palette(x) => TaggedValue::Palette(x.clone()),
            TaggedValue::Subpaths(x) => TaggedValue::Subpaths(clone_subpaths(x)),
            TaggedValue::Fill(x) => TaggedValue::Fill(x.clone()),
            TaggedValue::Gradient(x) => TaggedValue::Gradient(x.clone()),
            TaggedValue::GradientStops(x) => TaggedValue::GradientStops(x.clone()),
            TaggedValue::Font(x) => TaggedValue::Font(x.clone()),
            TaggedValue::Footprint(x) => TaggedValue::Footprint(*x),
            TaggedValue::FontCache(x) => TaggedValue::FontCache(share(x)),
            TaggedValue::BlendMode(x) => TaggedValue::BlendMode(*x),
            TaggedValue::ReferencePoint(x) => TaggedValue::ReferencePoint(*x),
            TaggedValue::ArcType(x) => TaggedValue::ArcType(*x),
            TaggedValue::GridType(x) => TaggedValue::GridType(*x),
            TaggedValue::MergeByDistanceAlgorithm(x) => TaggedValue::MergeByDistanceAlgorithm(*x),
            TaggedValue::FillType(x) => TaggedValue::FillType(*x),
            TaggedValue::GradientType(x) => TaggedValue::GradientType(*x),
            TaggedValue::StrokeCap(x) => TaggedValue::StrokeCap(*x),
            TaggedValue::StrokeJoin(x) => TaggedValue::StrokeJoin(*x),
            TaggedValue::StrokeAlign(x) => TaggedValue::StrokeAlign(*x),
            TaggedValue::PaintOrder(x) => TaggedValue::PaintOrder(*x),
            TaggedValue::NoiseType(x) => TaggedValue::NoiseType(*x),
            TaggedValue::FractalType(x) => TaggedValue::FractalType(*x),
            TaggedValue::RenderOutput(x) => TaggedValue::RenderOutput(x.clone()),
            TaggedValue::SurfaceFrame(x) => TaggedValue::SurfaceFrame(*x),
            TaggedValue::EditorApi(x) => TaggedValue::EditorApi(*x),
        }
    }
}

/// The default value of a kind is of that kind.
pub proof fn lemma_initial_kind(kind: ValueKind)
    requires
        kind.defaultable(),
    ensures
        ValueModel::initial(kind) is Some,
        ValueModel::initial(kind).unwrap().kind() == kind,
{
}

/// Default construction answers the description it was asked for: where a
/// description has a default value, the type of that value has the identity
/// that the description resolves to.
pub proof fn lemma_default_has_the_type_asked_for(ty: TypeModel)
    requires
        ValueModel::from_type(ty) is Some,
    ensures
        ValueModel::from_type(ty).unwrap().kind().descriptor().identity() == ty.identity(),
        ty.identity() is Some,
{
    let id = ty.identity().unwrap();
    let kind = ValueKind::of_identity(id).unwrap();
    assert(kind.identity_of() == id);
    lemma_initial_kind(kind);
}

/// For the description that the registry itself gives of a kind with a
/// default, the default value exists and its type is that very description.
pub proof fn lemma_default_of_own_descriptor(kind: ValueKind)
    requires
        kind.defaultable(),
    ensures
        ValueModel::from_type(kind.descriptor()) is Some,
        ValueModel::from_type(kind.descriptor()).unwrap().kind().descriptor() == kind.descriptor(),
{
    lemma_identity_round_trip(kind);
    lemma_initial_kind(kind);
}

/// A function and a deferred value have the default of what they give.
pub proof fn lemma_default_looks_through_wrappers(ty: TypeModel)
    ensures
        ValueModel::from_type(TypeModel::Fn(Box::new(ty))) == ValueModel::from_type(ty),
        ValueModel::from_type(TypeModel::Future(Box::new(ty))) == ValueModel::from_type(ty),
{
}

} // verus!
