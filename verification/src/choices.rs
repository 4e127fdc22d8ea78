//! The enumerations that a value can carry. Each has a default, its first
//! variant, and numbers its variants in declaration order.

use vstd::prelude::*;

verus! {

/// How the colors of a layer combine with what lies beneath it.
#[derive(Clone, Copy, Debug, PartialEq, Eq, Structural)]
pub enum BlendMode {
    Normal,
    Darken,
    Multiply,
    ColorBurn,
    LinearBurn,
    DarkerColor,
    Lighten,
    Screen,
    ColorDodge,
    LinearDodge,
    LighterColor,
    Overlay,
    SoftLight,
    HardLight,
    VividLight,
    LinearLight,
    PinLight,
    HardMix,
    Difference,
    Exclusion,
    Subtract,
    Divide,
    Hue,
    Saturation,
    Color,
    Luminosity,
    Erase,
    Restore,
    MultiplyAlpha,
}

impl BlendMode {
    /// The position of the variant in declaration order.
    pub open spec fn index(self) -> u64 {
        match self {
            BlendMode::Normal => 0,
            BlendMode::Darken => 1,
            BlendMode::Multiply => 2,
            BlendMode::ColorBurn => 3,
            BlendMode::LinearBurn => 4,
            BlendMode::DarkerColor => 5,
            BlendMode::Lighten => 6,
            BlendMode::Screen => 7,
            BlendMode::ColorDodge => 8,
            BlendMode::LinearDodge => 9,
            BlendMode::LighterColor => 10,
            BlendMode::Overlay => 11,
            BlendMode::SoftLight => 12,
            BlendMode::HardLight => 13,
            BlendMode::VividLight => 14,
            BlendMode::LinearLight => 15,
            BlendMode::PinLight => 16,
            BlendMode::HardMix => 17,
            BlendMode::Difference => 18,
            BlendMode::Exclusion => 19,
            BlendMode::Subtract => 20,
            BlendMode::Divide => 21,
            BlendMode::Hue => 22,
            BlendMode::Saturation => 23,
            BlendMode::Color => 24,
            BlendMode::Luminosity => 25,
            BlendMode::Erase => 26,
            BlendMode::Restore => 27,
            BlendMode::MultiplyAlpha => 28,
        }
    }

    /// The position of the variant in declaration order.
    pub fn code(&self) -> (r: u64)
        ensures
            r == self.index(),
    {
        match self {
            BlendMode::Normal => 0,
            BlendMode::Darken => 1,
            BlendMode::Multiply => 2,
            BlendMode::ColorBurn => 3,
            BlendMode::LinearBurn => 4,
            BlendMode::DarkerColor => 5,
            BlendMode::Lighten => 6,
            BlendMode::Screen => 7,
            BlendMode::ColorDodge => 8,
            BlendMode::LinearDodge => 9,
            BlendMode::LighterColor => 10,
            BlendMode::Overlay => 11,
            BlendMode::SoftLight => 12,
            BlendMode::HardLight => 13,
            BlendMode::VividLight => 14,
            BlendMode::LinearLight => 15,
            BlendMode::PinLight => 16,
            BlendMode::HardMix => 17,
            BlendMode::Difference => 18,
            BlendMode::Exclusion => 19,
            BlendMode::Subtract => 20,
            BlendMode::Divide => 21,
            BlendMode::Hue => 22,
            BlendMode::Saturation => 23,
            BlendMode::Color => 24,
            BlendMode::Luminosity => 25,
            BlendMode::Erase => 26,
            BlendMode::Restore => 27,
            BlendMode::MultiplyAlpha => 28,
        }
    }
}

impl Default for BlendMode {
    fn default() -> (r: BlendMode)
        ensures
            r == BlendMode::Normal,
    {
        BlendMode::Normal
    }
}

/// A named position of a bounding box: none, a corner, the middle of an edge, or
/// the center.
#[derive(Clone, Copy, Debug, PartialEq, Eq, Structural)]
pub enum ReferencePoint {
    /// No position is chosen.
    NoPoint,
    TopLeft,
    TopCenter,
    TopRight,
    CenterLeft,
    Center,
    CenterRight,
    BottomLeft,
    BottomCenter,
    BottomRight,
}

impl ReferencePoint {
    /// The position of the variant in declaration order.
    pub open spec fn index(self) -> u64 {
        match self {
            ReferencePoint::NoPoint => 0,
            ReferencePoint::TopLeft => 1,
            ReferencePoint::TopCenter => 2,
            ReferencePoint::TopRight => 3,
            ReferencePoint::CenterLeft => 4,
            ReferencePoint::Center => 5,
            ReferencePoint::CenterRight => 6,
            ReferencePoint::BottomLeft => 7,
            ReferencePoint::BottomCenter => 8,
            ReferencePoint::BottomRight => 9,
        }
    }

    /// The position of the variant in declaration order.
    pub fn code(&self) -> (r: u64)
        ensures
            r == self.index(),
    {
        match self {
            ReferencePoint::NoPoint => 0,
            ReferencePoint::TopLeft => 1,
            ReferencePoint::TopCenter => 2,
            ReferencePoint::TopRight => 3,
            ReferencePoint::CenterLeft => 4,
            ReferencePoint::Center => 5,
            ReferencePoint::CenterRight => 6,
            ReferencePoint::BottomLeft => 7,
            ReferencePoint::BottomCenter => 8,
            ReferencePoint::BottomRight => 9,
        }
    }
}

impl Default for ReferencePoint {
    fn default() -> (r: ReferencePoint)
        ensures
            r == ReferencePoint::NoPoint,
    {
        ReferencePoint::NoPoint
    }
}

/// How an arc is closed.
#[derive(Clone, Copy, Debug, PartialEq, Eq, Structural)]
pub enum ArcType {
    Open,
    Closed,
    PieSlice,
}

impl ArcType {
    /// The position of the variant in declaration order.
    pub open spec fn index(self) -> u64 {
        match self {
            ArcType::Open => 0,
            ArcType::Closed => 1,
            ArcType::PieSlice => 2,
        }
    }

    /// The position of the variant in declaration order.
    pub fn code(&self) -> (r: u64)
        ensures
            r == self.index(),
    {
        match self {
            ArcType::Open => 0,
            ArcType::Closed => 1,
            ArcType::PieSlice => 2,
        }
    }
}

impl Default for ArcType {
    fn default() -> (r: ArcType)
        ensures
            r == ArcType::Open,
    {
        ArcType::Open
    }
}

/// The layout of a grid of points.
#[derive(Clone, Copy, Debug, PartialEq, Eq, Structural)]
pub enum GridType {
    Rectangular,
    Isometric,
}

impl GridType {
    /// The position of the variant in declaration order.
    pub open spec fn index(self) -> u64 {
        match self {
            GridType::Rectangular => 0,
            GridType::Isometric => 1,
        }
    }

    /// The position of the variant in declaration order.
    pub fn code(&self) -> (r: u64)
        ensures
            r == self.index(),
    {
        match self {
            GridType::Rectangular => 0,
            GridType::Isometric => 1,
        }
    }
}

impl Default for GridType {
    fn default() -> (r: GridType)
        ensures
            r == GridType::Rectangular,
    {
        GridType::Rectangular
    }
}

/// How nearby points are found when points are merged by distance.
#[derive(Clone, Copy, Debug, PartialEq, Eq, Structural)]
pub enum MergeByDistanceAlgorithm {
    Spatial,
    Topological,
}

impl MergeByDistanceAlgorithm {
    /// The position of the variant in declaration order.
    pub open spec fn index(self) -> u64 {
        match self {
            MergeByDistanceAlgorithm::Spatial => 0,
            MergeByDistanceAlgorithm::Topological => 1,
        }
    }

    /// The position of the variant in declaration order.
    pub fn code(&self) -> (r: u64)
        ensures
            r == self.index(),
    {
        match self {
            MergeByDistanceAlgorithm::Spatial => 0,
            MergeByDistanceAlgorithm::Topological => 1,
        }
    }
}

impl Default for MergeByDistanceAlgorithm {
    fn default() -> (r: MergeByDistanceAlgorithm)
        ensures
            r == MergeByDistanceAlgorithm::Spatial,
    {
        MergeByDistanceAlgorithm::Spatial
    }
}

/// The kind of paint of a fill.
#[derive(Clone, Copy, Debug, PartialEq, Eq, Structural)]
pub enum FillType {
    Solid,
    Gradient,
}

impl FillType {
    /// The position of the variant in declaration order.
    pub open spec fn index(self) -> u64 {
        match self {
            FillType::Solid => 0,
            FillType::Gradient => 1,
        }
    }

    /// The position of the variant in declaration order.
    pub fn code(&self) -> (r: u64)
        ensures
            r == self.index(),
    {
        match self {
            FillType::Solid => 0,
            FillType::Gradient => 1,
        }
    }
}

impl Default for FillType {
    fn default() -> (r: FillType)
        ensures
            r == FillType::Solid,
    {
        FillType::Solid
    }
}

/// The geometry of a gradient.
#[derive(Clone, Copy, Debug, PartialEq, Eq, Structural)]
pub enum GradientType {
    Linear,
    Radial,
}

impl GradientType {
    /// The position of the variant in declaration order.
    pub open spec fn index(self) -> u64 {
        match self {
            GradientType::Linear => 0,
            GradientType::Radial => 1,
        }
    }

    /// The position of the variant in declaration order.
    pub fn code(&self) -> (r: u64)
        ensures
            r == self.index(),
    {
        match self {
            GradientType::Linear => 0,
            GradientType::Radial => 1,
        }
    }
}

impl Default for GradientType {
    fn default() -> (r: GradientType)
        ensures
            r == GradientType::Linear,
    {
        GradientType::Linear
    }
}

/// The shape of the ends of an open stroke.
#[derive(Clone, Copy, Debug, PartialEq, Eq, Structural)]
pub enum StrokeCap {
    Butt,
    Round,
    Square,
}

impl StrokeCap {
    /// The position of the variant in declaration order.
    pub open spec fn index(self) -> u64 {
        match self {
            StrokeCap::Butt => 0,
            StrokeCap::Round => 1,
            StrokeCap::Square => 2,
        }
    }

    /// The position of the variant in declaration order.
    pub fn code(&self) -> (r: u64)
        ensures
            r == self.index(),
    {
        match self {
            StrokeCap::Butt => 0,
            StrokeCap::Round => 1,
            StrokeCap::Square => 2,
        }
    }
}

impl Default for StrokeCap {
    fn default() -> (r: StrokeCap)
        ensures
            r == StrokeCap::Butt,
    {
        StrokeCap::Butt
    }
}

/// The shape of the corners of a stroke.
#[derive(Clone, Copy, Debug, PartialEq, Eq, Structural)]
pub enum StrokeJoin {
    Miter,
    Bevel,
    Round,
}

impl StrokeJoin {
    /// The position of the variant in declaration order.
    pub open spec fn index(self) -> u64 {
        match self {
            StrokeJoin::Miter => 0,
            StrokeJoin::Bevel => 1,
            StrokeJoin::Round => 2,
        }
    }

    /// The position of the variant in declaration order.
    pub fn code(&self) -> (r: u64)
        ensures
            r == self.index(),
    {
        match self {
            StrokeJoin::Miter => 0,
            StrokeJoin::Bevel => 1,
            StrokeJoin::Round => 2,
        }
    }
}

impl Default for StrokeJoin {
    fn default() -> (r: StrokeJoin)
        ensures
            r == StrokeJoin::Miter,
    {
        StrokeJoin::Miter
    }
}

/// Where a stroke lies relative to its path.
#[derive(Clone, Copy, Debug, PartialEq, Eq, Structural)]
pub enum StrokeAlign {
    Center,
    Inside,
    Outside,
}

impl StrokeAlign {
    /// The position of the variant in declaration order.
    pub open spec fn index(self) -> u64 {
        match self {
            StrokeAlign::Center => 0,
            StrokeAlign::Inside => 1,
            StrokeAlign::Outside => 2,
        }
    }

    /// The position of the variant in declaration order.
    pub fn code(&self) -> (r: u64)
        ensures
            r == self.index(),
    {
        match self {
            StrokeAlign::Center => 0,
            StrokeAlign::Inside => 1,
            StrokeAlign::Outside => 2,
        }
    }
}

impl Default for StrokeAlign {
    fn default() -> (r: StrokeAlign)
        ensures
            r == StrokeAlign::Center,
    {
        StrokeAlign::Center
    }
}

/// Whether the stroke is painted over or under the fill.
#[derive(Clone, Copy, Debug, PartialEq, Eq, Structural)]
pub enum PaintOrder {
    StrokeAbove,
    StrokeBelow,
}

impl PaintOrder {
    /// The position of the variant in declaration order.
    pub open spec fn index(self) -> u64 {
        match self {
            PaintOrder::StrokeAbove => 0,
            PaintOrder::StrokeBelow => 1,
        }
    }

    /// The position of the variant in declaration order.
    pub fn code(&self) -> (r: u64)
        ensures
            r == self.index(),
    {
        match self {
            PaintOrder::StrokeAbove => 0,
            PaintOrder::StrokeBelow => 1,
        }
    }
}

impl Default for PaintOrder {
    fn default() -> (r: PaintOrder)
        ensures
            r == PaintOrder::StrokeAbove,
    {
        PaintOrder::StrokeAbove
    }
}

/// The kind of noise of a noise pattern.
#[derive(Clone, Copy, Debug, PartialEq, Eq, Structural)]
pub enum NoiseType {
    Perlin,
    OpenSimplex2,
    OpenSimplex2S,
    Cellular,
    ValueCubic,
    Value,
    WhiteNoise,
}

impl NoiseType {
    /// The position of the variant in declaration order.
    pub open spec fn index(self) -> u64 {
        match self {
            NoiseType::Perlin => 0,
            NoiseType::OpenSimplex2 => 1,
            NoiseType::OpenSimplex2S => 2,
            NoiseType::Cellular => 3,
            NoiseType::ValueCubic => 4,
            NoiseType::Value => 5,
            NoiseType::WhiteNoise => 6,
        }
    }

    /// The position of the variant in declaration order.
    pub fn code(&self) -> (r: u64)
        ensures
            r == self.index(),
    {
        match self {
            NoiseType::Perlin => 0,
            NoiseType::OpenSimplex2 => 1,
            NoiseType::OpenSimplex2S => 2,
            NoiseType::Cellular => 3,
            NoiseType::ValueCubic => 4,
            NoiseType::Value => 5,
            NoiseType::WhiteNoise => 6,
        }
    }
}

impl Default for NoiseType {
    fn default() -> (r: NoiseType)
        ensures
            r == NoiseType::Perlin,
    {
        NoiseType::Perlin
    }
}

/// How the octaves of a noise pattern are combined.
#[derive(Clone, Copy, Debug, PartialEq, Eq, Structural)]
pub enum FractalType {
    /// A single octave.
    NoFractal,
    FBm,
    Ridged,
    PingPong,
    DomainWarpProgressive,
    DomainWarpIndependent,
}

impl FractalType {
    /// The position of the variant in declaration order.
    pub open spec fn index(self) -> u64 {
        match self {
            FractalType::NoFractal => 0,
            FractalType::FBm => 1,
            FractalType::Ridged => 2,
            FractalType::PingPong => 3,
            FractalType::DomainWarpProgressive => 4,
            FractalType::DomainWarpIndependent => 5,
        }
    }

    /// The position of the variant in declaration order.
    pub fn code(&self) -> (r: u64)
        ensures
            r == self.index(),
    {
        match self {
            FractalType::NoFractal => 0,
            FractalType::FBm => 1,
            FractalType::Ridged => 2,
            FractalType::PingPong => 3,
            FractalType::DomainWarpProgressive => 4,
            FractalType::DomainWarpIndependent => 5,
        }
    }
}

impl Default for FractalType {
    fn default() -> (r: FractalType)
        ensures
            r == FractalType::NoFractal,
    {
        FractalType::NoFractal
    }
}

impl BlendMode {
    /// The name of the blend mode as it is shown to people.
    pub open spec fn display_text(self) -> Seq<char> {
        match self {
            BlendMode::Normal => "Normal"@,
            BlendMode::Darken => "Darken"@,
            BlendMode::Multiply => "Multiply"@,
            BlendMode::ColorBurn => "Color Burn"@,
            BlendMode::LinearBurn => "Linear Burn"@,
            BlendMode::DarkerColor => "Darker Color"@,
            BlendMode::Lighten => "Lighten"@,
            BlendMode::Screen => "Screen"@,
            BlendMode::ColorDodge => "Color Dodge"@,
            BlendMode::LinearDodge => "Linear Dodge"@,
            BlendMode::LighterColor => "Lighter Color"@,
            BlendMode::Overlay => "Overlay"@,
            BlendMode::SoftLight => "Soft Light"@,
            BlendMode::HardLight => "Hard Light"@,
            BlendMode::VividLight => "Vivid Light"@,
            BlendMode::LinearLight => "Linear Light"@,
            BlendMode::PinLight => "Pin Light"@,
            BlendMode::HardMix => "Hard Mix"@,
            BlendMode::Difference => "Difference"@,
            BlendMode::Exclusion => "Exclusion"@,
            BlendMode::Subtract => "Subtract"@,
            BlendMode::Divide => "Divide"@,
            BlendMode::Hue => "Hue"@,
            BlendMode::Saturation => "Saturation"@,
            BlendMode::Color => "Color"@,
            BlendMode::Luminosity => "Luminosity"@,
            BlendMode::Erase => "Erase"@,
            BlendMode::Restore => "Restore"@,
            BlendMode::MultiplyAlpha => "Multiply Alpha"@,
        }
    }

    /// The name of the blend mode as it is shown to people.
    pub fn display_name(&self) -> (r: &'static str)
        ensures
            r@ == self.display_text(),
    {
        match self {
            BlendMode::Normal => "Normal",
            BlendMode::Darken => "Darken",
            BlendMode::Multiply => "Multiply",
            BlendMode::ColorBurn => "Color Burn",
            BlendMode::LinearBurn => "Linear Burn",
            BlendMode::DarkerColor => "Darker Color",
            BlendMode::Lighten => "Lighten",
            BlendMode::Screen => "Screen",
            BlendMode::ColorDodge => "Color Dodge",
            BlendMode::LinearDodge => "Linear Dodge",
            BlendMode::LighterColor => "Lighter Color",
            BlendMode::Overlay => "Overlay",
            BlendMode::SoftLight => "Soft Light",
            BlendMode::HardLight => "Hard Light",
            BlendMode::VividLight => "Vivid Light",
            BlendMode::LinearLight => "Linear Light",
            BlendMode::PinLight => "Pin Light",
            BlendMode::HardMix => "Hard Mix",
            BlendMode::Difference => "Difference",
            BlendMode::Exclusion => "Exclusion",
            BlendMode::Subtract => "Subtract",
            BlendMode::Divide => "Divide",
            BlendMode::Hue => "Hue",
            BlendMode::Saturation => "Saturation",
            BlendMode::Color => "Color",
            BlendMode::Luminosity => "Luminosity",
            BlendMode::Erase => "Erase",
            BlendMode::Restore => "Restore",
            BlendMode::MultiplyAlpha => "Multiply Alpha",
        }
    }
}

impl ReferencePoint {
    /// The position that a name stands for. The position that is not chosen is
    /// written `None`.
    pub open spec fn named(name: Seq<char>) -> Option<ReferencePoint> {
        if name == "None"@ {
            Some(ReferencePoint::NoPoint)
        } else if name == "TopLeft"@ {
            Some(ReferencePoint::TopLeft)
        } else if name == "TopCenter"@ {
            Some(ReferencePoint::TopCenter)
        } else if name == "TopRight"@ {
            Some(ReferencePoint::TopRight)
        } else if name == "CenterLeft"@ {
            Some(ReferencePoint::CenterLeft)
        } else if name == "Center"@ {
            Some(ReferencePoint::Center)
        } else if name == "CenterRight"@ {
            Some(ReferencePoint::CenterRight)
        } else if name == "BottomLeft"@ {
            Some(ReferencePoint::BottomLeft)
        } else if name == "BottomCenter"@ {
            Some(ReferencePoint::BottomCenter)
        } else if name == "BottomRight"@ {
            Some(ReferencePoint::BottomRight)
        } else {
            None
        }
    }
}

} // verus!
