//! Structured payloads: images, fills, gradients, fonts and viewport
//! footprints. A type that owns a vector or a string has a model, its view, in
//! which those are sequences.

use vstd::prelude::*;
use vstd::string::*;
use crate::choices::GradientType;
use crate::color::Color;
use crate::primitives::{Affine2, FloatBits, Vector2, ONE_BITS};

verus! {

/// Bit pattern of the number one half.
pub const HALF_BITS: u64 = 0x3FE0_0000_0000_0000;

/// A raster image: its size and its pixels, row by row.
#[derive(Debug, PartialEq, Eq)]
pub struct Image {
    pub width: u32,
    pub height: u32,
    pub data: Vec<Color>,
}

/// The model of an [`Image`].
pub struct ImageModel {
    pub width: u32,
    pub height: u32,
    pub data: Seq<Color>,
}

impl View for Image {
    type V = ImageModel;

    open spec fn view(&self) -> ImageModel {
        ImageModel { width: self.width, height: self.height, data: self.data@ }
    }
}

impl ImageModel {
    /// The image without pixels.
    pub open spec fn empty() -> ImageModel {
        ImageModel { width: 0, height: 0, data: Seq::empty() }
    }
}

impl Clone for Image {
    fn clone(&self) -> (r: Image)
        ensures
            r@ == self@,
    {
        Image { width: self.width, height: self.height, data: self.data.clone() }
    }
}

impl Default for Image {
    fn default() -> (r: Image)
        ensures
            r@ == ImageModel::empty(),
    {
        Image { width: 0, height: 0, data: Vec::new() }
    }
}

/// One stop of a gradient: a position along it and the color there.
#[derive(Clone, Copy, Debug, PartialEq, Eq, Structural)]
pub struct GradientStop {
    pub position: FloatBits,
    pub color: Color,
}

/// The stops of a gradient, in order.
#[derive(Debug, PartialEq, Eq)]
pub struct GradientStops {
    pub stops: Vec<GradientStop>,
}

impl View for GradientStops {
    type V = Seq<GradientStop>;

    open spec fn view(&self) -> Seq<GradientStop> {
        self.stops@
    }
}

/// The stops of the default gradient: opaque black at zero, opaque white at
/// one.
pub open spec fn default_stops() -> Seq<GradientStop> {
    seq![
        GradientStop { position: FloatBits::zero(), color: Color::rgba(0, 0, 0, 255) },
        GradientStop { position: FloatBits::one(), color: Color::rgba(255, 255, 255, 255) },
    ]
}

impl Clone for GradientStops {
    fn clone(&self) -> (r: GradientStops)
        ensures
            r@ == self@,
    {
        GradientStops { stops: self.stops.clone() }
    }
}

impl Default for GradientStops {
    fn default() -> (r: GradientStops)
        ensures
            r@ == default_stops(),
    {
        let mut stops: Vec<GradientStop> = Vec::new();
        stops.push(
            GradientStop {
                position: FloatBits { bits: 0 },
                color: Color { red: 0, green: 0, blue: 0, alpha: 255 },
            },
        );
        stops.push(
            GradientStop {
                position: FloatBits { bits: ONE_BITS },
                color: Color { red: 255, green: 255, blue: 255, alpha: 255 },
            },
        );
        assert(stops@ =~= default_stops());
        GradientStops { stops }
    }
}

/// A gradient: its stops, its geometry, the two points it runs between and
/// the transform it is drawn under.
#[derive(Debug, PartialEq, Eq)]
pub struct Gradient {
    pub stops: GradientStops,
    pub gradient_type: GradientType,
    pub start: Vector2,
    pub end: Vector2,
    pub transform: Affine2,
}

/// The model of a [`Gradient`].
pub struct GradientModel {
    pub stops: Seq<GradientStop>,
    pub gradient_type: GradientType,
    pub start: Vector2,
    pub end: Vector2,
    pub transform: Affine2,
}

impl View for Gradient {
    type V = GradientModel;

    open spec fn view(&self) -> GradientModel {
        GradientModel {
            stops: self.stops@,
            gradient_type: self.gradient_type,
            start: self.start,
            end: self.end,
            transform: self.transform,
        }
    }
}

impl GradientModel {
    /// The default gradient: linear, from black to white, left to right at
    /// half height.
    pub open spec fn initial() -> GradientModel {
        GradientModel {
            stops: default_stops(),
            gradient_type: GradientType::Linear,
            start: Vector2 { x: FloatBits::zero(), y: FloatBits { bits: HALF_BITS } },
            end: Vector2 { x: FloatBits::one(), y: FloatBits { bits: HALF_BITS } },
            transform: Affine2::identity(),
        }
    }
}

impl Clone for Gradient {
    fn clone(&self) -> (r: Gradient)
        ensures
            r@ == self@,
    {
        Gradient {
            stops: self.stops.clone(),
            gradient_type: self.gradient_type,
            start: self.start,
            end: self.end,
            transform: self.transform,
        }
    }
}

impl Default for Gradient {
    fn default() -> (r: Gradient)
        ensures
            r@ == GradientModel::initial(),
    {
        Gradient {
            stops: GradientStops::default(),
            gradient_type: GradientType::Linear,
            start: Vector2 { x: FloatBits { bits: 0 }, y: FloatBits { bits: HALF_BITS } },
            end: Vector2 { x: FloatBits { bits: ONE_BITS }, y: FloatBits { bits: HALF_BITS } },
            transform: Affine2::default(),
        }
    }
}

/// The paint inside a shape.
#[derive(Debug, PartialEq, Eq)]
pub enum Fill {
    /// No paint.
    NoFill,
    /// One color.
    Solid(Color),
    /// A gradient.
    Gradient(Gradient),
}

/// The model of a [`Fill`].
pub enum FillModel {
    NoFill,
    Solid(Color),
    Gradient(GradientModel),
}

impl View for Fill {
    type V = FillModel;

    open spec fn view(&self) -> FillModel {
        match self {
            Fill::NoFill => FillModel::NoFill,
            Fill::Solid(color) => FillModel::Solid(*color),
            Fill::Gradient(gradient) => FillModel::Gradient(gradient@),
        }
    }
}

impl Fill {
    /// The fill of one color.
    pub fn solid(color: Color) -> (r: Fill)
        ensures
            r@ == FillModel::Solid(color),
    {
        Fill::Solid(color)
    }
}

impl Clone for Fill {
    fn clone(&self) -> (r: Fill)
        ensures
            r@ == self@,
    {
        match self {
            Fill::NoFill => Fill::NoFill,
            Fill::Solid(color) => Fill::Solid(*color),
            Fill::Gradient(gradient) => Fill::Gradient(gradient.clone()),
        }
    }
}

impl Default for Fill {
    fn default() -> (r: Fill)
        ensures
            r@ == FillModel::NoFill,
    {
        Fill::NoFill
    }
}

/// A font: the name of its family and of its style.
#[derive(Debug, PartialEq, Eq)]
pub struct Font {
    pub family: String,
    pub style: String,
}

/// The model of a [`Font`].
pub struct FontModel {
    pub family: Seq<char>,
    pub style: Seq<char>,
}

impl View for Font {
    type V = FontModel;

    open spec fn view(&self) -> FontModel {
        FontModel { family: self.family@, style: self.style@ }
    }
}

impl FontModel {
    /// The default font.
    pub open spec fn initial() -> FontModel {
        FontModel { family: "Cabin"@, style: "Regular (400)"@ }
    }
}

impl Clone for Font {
    fn clone(&self) -> (r: Font)
        ensures
            r@ == self@,
    {
        Font { family: self.family.clone(), style: self.style.clone() }
    }
}

impl Default for Font {
    fn default() -> (r: Font)
        ensures
            r@ == FontModel::initial(),
    {
        Font { family: String::from_str("Cabin"), style: String::from_str("Regular (400)") }
    }
}

/// The part of the document that a viewport shows: the transform from the
/// document to the viewport, and the size of the viewport in pixels.
#[derive(Clone, Copy, Debug, PartialEq, Eq, Structural)]
pub struct Footprint {
    pub transform: Affine2,
    pub width: u32,
    pub height: u32,
}

impl Footprint {
    /// The default footprint: the identity transform on 1920 by 1080 pixels.
    pub open spec fn initial() -> Footprint {
        Footprint { transform: Affine2::identity(), width: 1920, height: 1080 }
    }
}

impl Default for Footprint {
    fn default() -> (r: Footprint)
        ensures
            r == Footprint::initial(),
    {
        Footprint { transform: Affine2::default(), width: 1920, height: 1080 }
    }
}

/// A value of this type is its own model.
impl View for GradientStop {
    type V = GradientStop;

    open spec fn view(&self) -> GradientStop {
        *self
    }
}

/// A value of this type is its own model.
impl View for Footprint {
    type V = Footprint;

    open spec fn view(&self) -> Footprint {
        *self
    }
}

} // verus!
