//! The names under which the kinds of value are written to a document.
//!
//! Every kind but the handle of the execution environment has a name. Some
//! kinds were once written under other names: those old names are still read,
//! and never written.

use vstd::prelude::*;
use vstd::string::*;
use crate::registry::ValueKind;
use crate::render::{RenderDataModel, RenderOutputType};
use crate::text::{span_is, to_chars};

verus! {

impl ValueKind {
    /// The name under which the kind is written, for the kinds that are
    /// written at all.
    pub open spec fn persisted_name(self) -> Option<Seq<char>> {
        match self {
            ValueKind::Unit => Some("None"@),
            ValueKind::F64 => Some("F64"@),
            ValueKind::U32 => Some("U32"@),
            ValueKind::U64 => Some("U64"@),
            ValueKind::Bool => Some("Bool"@),
            ValueKind::String => Some("String"@),
            ValueKind::DVec2 => Some("DVec2"@),
            ValueKind::DAffine2 => Some("DAffine2"@),
            ValueKind::OptionalF64 => Some("OptionalF64"@),
            ValueKind::OptionalDVec2 => Some("OptionalDVec2"@),
            ValueKind::VecF64 => Some("VecF64"@),
            ValueKind::VecU64 => Some("VecU64"@),
            ValueKind::VecDVec2 => Some("VecDVec2"@),
            ValueKind::F64Array4 => Some("F64Array4"@),
            ValueKind::NodePath => Some("NodePath"@),
            ValueKind::PointIds => Some("PointIds"@),
            ValueKind::RasterData => Some("RasterData"@),
            ValueKind::ArtboardGroup => Some("ArtboardGroup"@),
            ValueKind::Artboard => Some("Artboard"@),
            ValueKind::Image => Some("Image"@),
            ValueKind::Color => Some("Color"@),
            ValueKind::OptionalColor => Some("OptionalColor"@),
            ValueKind::Palette => Some("Palette"@),
            ValueKind::Subpaths => Some("Subpaths"@),
            ValueKind::Fill => Some("Fill"@),
            ValueKind::Gradient => Some("Gradient"@),
            ValueKind::GradientStops => Some("GradientStops"@),
            ValueKind::Font => Some("Font"@),
            ValueKind::Footprint => Some("Footprint"@),
            ValueKind::FontCache => Some("FontCache"@),
            ValueKind::BlendMode => Some("BlendMode"@),
            ValueKind::ReferencePoint => Some("ReferencePoint"@),
            ValueKind::ArcType => Some("ArcType"@),
            ValueKind::GridType => Some("GridType"@),
            ValueKind::MergeByDistanceAlgorithm => Some("MergeByDistanceAlgorithm"@),
            ValueKind::FillType => Some("FillType"@),
            ValueKind::GradientType => Some("GradientType"@),
            ValueKind::StrokeCap => Some("StrokeCap"@),
            ValueKind::StrokeJoin => Some("StrokeJoin"@),
            ValueKind::StrokeAlign => Some("StrokeAlign"@),
            ValueKind::PaintOrder => Some("PaintOrder"@),
            ValueKind::NoiseType => Some("NoiseType"@),
            ValueKind::FractalType => Some("FractalType"@),
            ValueKind::RenderOutput => Some("RenderOutput"@),
            ValueKind::SurfaceFrame => Some("SurfaceFrame"@),
            ValueKind::EditorApi => None,
        }
    }

    /// The kind that an old name stands for.
    pub open spec fn of_old_name(name: Seq<char>) -> Option<ValueKind> {
        if name == "F32"@ {
            Some(ValueKind::F64)
        } else if name == "IVec2"@ {
            Some(ValueKind::DVec2)
        } else if name == "UVec2"@ {
            Some(ValueKind::DVec2)
        } else if name == "VecF32"@ {
            Some(ValueKind::VecF64)
        } else if name == "ManipulatorGroupIds"@ {
            Some(ValueKind::PointIds)
        } else if name == "GradientPositions"@ {
            Some(ValueKind::GradientStops)
        } else if name == "LineCap"@ {
            Some(ValueKind::StrokeCap)
        } else if name == "LineJoin"@ {
            Some(ValueKind::StrokeJoin)
        } else {
            None
        }
    }

    /// The kind that is read for a name: the kind that is written under the
    /// name, or else the kind that the name once stood for.
    pub open spec fn of_persisted_name(name: Seq<char>) -> Option<ValueKind> {
        if exists|kind: ValueKind| kind.persisted_name() == Some(name) {
            Some(choose|kind: ValueKind| kind.persisted_name() == Some(name))
        } else {
            ValueKind::of_old_name(name)
        }
    }

    /// Whether values of the kind are written to a document.
    pub fn is_persisted(&self) -> (r: bool)
        ensures
            r == self.persisted_name() is Some,
            r == !(self is EditorApi),
    {
        match self {
            ValueKind::EditorApi => false,
            _ => true,
        }
    }

    /// The name under which the kind is written.
    pub fn name_in_document(&self) -> (r: Option<&'static str>)
        ensures
            match (r, self.persisted_name()) {
                (Some(name), Some(text)) => name@ == text,
                (None, None) => true,
                _ => false,
            },
    {
        match self {
            ValueKind::Unit => Some("None"),
            ValueKind::F64 => Some("F64"),
            ValueKind::U32 => Some("U32"),
            ValueKind::U64 => Some("U64"),
            ValueKind::Bool => Some("Bool"),
            ValueKind::String => Some("String"),
            ValueKind::DVec2 => Some("DVec2"),
            ValueKind::DAffine2 => Some("DAffine2"),
            ValueKind::OptionalF64 => Some("OptionalF64"),
            ValueKind::OptionalDVec2 => Some("OptionalDVec2"),
            ValueKind::VecF64 => Some("VecF64"),
            ValueKind::VecU64 => Some("VecU64"),
            ValueKind::VecDVec2 => Some("VecDVec2"),
            ValueKind::F64Array4 => Some("F64Array4"),
            ValueKind::NodePath => Some("NodePath"),
            ValueKind::PointIds => Some("PointIds"),
            ValueKind::RasterData => Some("RasterData"),
            ValueKind::ArtboardGroup => Some("ArtboardGroup"),
            ValueKind::Artboard => Some("Artboard"),
            ValueKind::Image => Some("Image"),
            ValueKind::Color => Some("Color"),
            ValueKind::OptionalColor => Some("OptionalColor"),
            ValueKind::Palette => Some("Palette"),
            ValueKind::Subpaths => Some("Subpaths"),
            ValueKind::Fill => Some("Fill"),
            ValueKind::Gradient => Some("Gradient"),
            ValueKind::GradientStops => Some("GradientStops"),
            ValueKind::Font => Some("Font"),
            ValueKind::Footprint => Some("Footprint"),
            ValueKind::FontCache => Some("FontCache"),
            ValueKind::BlendMode => Some("BlendMode"),
            ValueKind::ReferencePoint => Some("ReferencePoint"),
            ValueKind::ArcType => Some("ArcType"),
            ValueKind::GridType => Some("GridType"),
            ValueKind::MergeByDistanceAlgorithm => Some("MergeByDistanceAlgorithm"),
            ValueKind::FillType => Some("FillType"),
            ValueKind::GradientType => Some("GradientType"),
            ValueKind::StrokeCap => Some("StrokeCap"),
            ValueKind::StrokeJoin => Some("StrokeJoin"),
            ValueKind::StrokeAlign => Some("StrokeAlign"),
            ValueKind::PaintOrder => Some("PaintOrder"),
            ValueKind::NoiseType => Some("NoiseType"),
            ValueKind::FractalType => Some("FractalType"),
            ValueKind::RenderOutput => Some("RenderOutput"),
            ValueKind::SurfaceFrame => Some("SurfaceFrame"),
            ValueKind::EditorApi => None,
        }
    }

    /// The kind that is read for a name of a document.
    #[verifier::rlimit(50)]
    pub fn from_name_in_document(name: &str) -> (r: Option<ValueKind>)
        ensures
            r == ValueKind::of_persisted_name(name@),
    {
        let chars = to_chars(name);
        let span = (0, chars.len());
        assert(chars@.subrange(0, chars.len() as int) == name@);
        proof {
            reveal_names();
        }
        if span_is(&chars, span, "None") {
            proof {
                lemma_written_name_is_read_back(ValueKind::Unit);
            }
            return Some(ValueKind::Unit);
        }
        if span_is(&chars, span, "F64") {
            proof {
                lemma_written_name_is_read_back(ValueKind::F64);
            }
            return Some(ValueKind::F64);
        }
        if span_is(&chars, span, "U32") {
            proof {
                lemma_written_name_is_read_back(ValueKind::U32);
            }
            return Some(ValueKind::U32);
        }
        if span_is(&chars, span, "U64") {
            proof {
                lemma_written_name_is_read_back(ValueKind::U64);
            }
            return Some(ValueKind::U64);
        }
        if span_is(&chars, span, "Bool") {
            proof {
                lemma_written_name_is_read_back(ValueKind::Bool);
            }
            return Some(ValueKind::Bool);
        }
        if span_is(&chars, span, "String") {
            proof {
                lemma_written_name_is_read_back(ValueKind::String);
            }
            return Some(ValueKind::String);
        }
        if span_is(&chars, span, "DVec2") {
            proof {
                lemma_written_name_is_read_back(ValueKind::DVec2);
            }
            return Some(ValueKind::DVec2);
        }
        if span_is(&chars, span, "DAffine2") {
            proof {
                lemma_written_name_is_read_back(ValueKind::DAffine2);
            }
            return Some(ValueKind::DAffine2);
        }
        if span_is(&chars, span, "OptionalF64") {
            proof {
                lemma_written_name_is_read_back(ValueKind::OptionalF64);
            }
            return Some(ValueKind::OptionalF64);
        }
        if span_is(&chars, span, "OptionalDVec2") {
            proof {
                lemma_written_name_is_read_back(ValueKind::OptionalDVec2);
            }
            return Some(ValueKind::OptionalDVec2);
        }
        if span_is(&chars, span, "VecF64") {
            proof {
                lemma_written_name_is_read_back(ValueKind::VecF64);
            }
            return Some(ValueKind::VecF64);
        }
        if span_is(&chars, span, "VecU64") {
            proof {
                lemma_written_name_is_read_back(ValueKind::VecU64);
            }
            return Some(ValueKind::VecU64);
        }
        if span_is(&chars, span, "VecDVec2") {
            proof {
                lemma_written_name_is_read_back(ValueKind::VecDVec2);
            }
            return Some(ValueKind::VecDVec2);
        }
        if span_is(&chars, span, "F64Array4") {
            proof {
                lemma_written_name_is_read_back(ValueKind::F64Array4);
            }
            return Some(ValueKind::F64Array4);
        }
        if span_is(&chars, span, "NodePath") {
            proof {
                lemma_written_name_is_read_back(ValueKind::NodePath);
            }
            return Some(ValueKind::NodePath);
        }
        if span_is(&chars, span, "PointIds") {
            proof {
                lemma_written_name_is_read_back(ValueKind::PointIds);
            }
            return Some(ValueKind::PointIds);
        }
        if span_is(&chars, span, "RasterData") {
            proof {
                lemma_written_name_is_read_back(ValueKind::RasterData);
            }
            return Some(ValueKind::RasterData);
        }
        if span_is(&chars, span, "ArtboardGroup") {
            proof {
                lemma_written_name_is_read_back(ValueKind::ArtboardGroup);
            }
            return Some(ValueKind::ArtboardGroup);
        }
        if span_is(&chars, span, "Artboard") {
            proof {
                lemma_written_name_is_read_back(ValueKind::Artboard);
            }
            return Some(ValueKind::Artboard);
        }
        if span_is(&chars, span, "Image") {
            proof {
                lemma_written_name_is_read_back(ValueKind::Image);
            }
            return Some(ValueKind::Image);
        }
        if span_is(&chars, span, "Color") {
            proof {
                lemma_written_name_is_read_back(ValueKind::Color);
            }
            return Some(ValueKind::Color);
        }
        if span_is(&chars, span, "OptionalColor") {
            proof {
                lemma_written_name_is_read_back(ValueKind::OptionalColor);
            }
            return Some(ValueKind::OptionalColor);
        }
        if span_is(&chars, span, "Palette") {
            proof {
                lemma_written_name_is_read_back(ValueKind::Palette);
            }
            return Some(ValueKind::Palette);
        }
        if span_is(&chars, span, "Subpaths") {
            proof {
                lemma_written_name_is_read_back(ValueKind::Subpaths);
            }
            return Some(ValueKind::Subpaths);
        }
        if span_is(&chars, span, "Fill") {
            proof {
                lemma_written_name_is_read_back(ValueKind::Fill);
            }
            return Some(ValueKind::Fill);
        }
        if span_is(&chars, span, "Gradient") {
            proof {
                lemma_written_name_is_read_back(ValueKind::Gradient);
            }
            return Some(ValueKind::Gradient);
        }
        if span_is(&chars, span, "GradientStops") {
            proof {
                lemma_written_name_is_read_back(ValueKind::GradientStops);
            }
            return Some(ValueKind::GradientStops);
        }
        if span_is(&chars, span, "Font") {
            proof {
                lemma_written_name_is_read_back(ValueKind::Font);
            }
            return Some(ValueKind::Font);
        }
        if span_is(&chars, span, "Footprint") {
            proof {
                lemma_written_name_is_read_back(ValueKind::Footprint);
            }
            return Some(ValueKind::Footprint);
        }
        if span_is(&chars, span, "FontCache") {
            proof {
                lemma_written_name_is_read_back(ValueKind::FontCache);
            }
            return Some(ValueKind::FontCache);
        }
        if span_is(&chars, span, "BlendMode") {
            proof {
                lemma_written_name_is_read_back(ValueKind::BlendMode);
            }
            return Some(ValueKind::BlendMode);
        }
        if span_is(&chars, span, "ReferencePoint") {
            proof {
                lemma_written_name_is_read_back(ValueKind::ReferencePoint);
            }
            return Some(ValueKind::ReferencePoint);
        }
        if span_is(&chars, span, "ArcType") {
            proof {
                lemma_written_name_is_read_back(ValueKind::ArcType);
            }
            return Some(ValueKind::ArcType);
        }
        if span_is(&chars, span, "GridType") {
            proof {
                lemma_written_name_is_read_back(ValueKind::GridType);
            }
            return Some(ValueKind::GridType);
        }
        if span_is(&chars, span, "MergeByDistanceAlgorithm") {
            proof {
                lemma_written_name_is_read_back(ValueKind::MergeByDistanceAlgorithm);
            }
            return Some(ValueKind::MergeByDistanceAlgorithm);
        }
        if span_is(&chars, span, "FillType") {
            proof {
                lemma_written_name_is_read_back(ValueKind::FillType);
            }
            return Some(ValueKind::FillType);
        }
        if span_is(&chars, span, "GradientType") {
            proof {
                lemma_written_name_is_read_back(ValueKind::GradientType);
            }
            return Some(ValueKind::GradientType);
        }
        if span_is(&chars, span, "StrokeCap") {
            proof {
                lemma_written_name_is_read_back(ValueKind::StrokeCap);
            }
            return Some(ValueKind::StrokeCap);
        }
        if span_is(&chars, span, "StrokeJoin") {
            proof {
                lemma_written_name_is_read_back(ValueKind::StrokeJoin);
            }
            return Some(ValueKind::StrokeJoin);
        }
        if span_is(&chars, span, "StrokeAlign") {
            proof {
                lemma_written_name_is_read_back(ValueKind::StrokeAlign);
            }
            return Some(ValueKind::StrokeAlign);
        }
        if span_is(&chars, span, "PaintOrder") {
            proof {
                lemma_written_name_is_read_back(ValueKind::PaintOrder);
            }
            return Some(ValueKind::PaintOrder);
        }
        if span_is(&chars, span, "NoiseType") {
            proof {
                lemma_written_name_is_read_back(ValueKind::NoiseType);
            }
            return Some(ValueKind::NoiseType);
        }
        if span_is(&chars, span, "FractalType") {
            proof {
                lemma_written_name_is_read_back(ValueKind::FractalType);
            }
            return Some(ValueKind::FractalType);
        }
        if span_is(&chars, span, "RenderOutput") {
            proof {
                lemma_written_name_is_read_back(ValueKind::RenderOutput);
            }
            return Some(ValueKind::RenderOutput);
        }
        if span_is(&chars, span, "SurfaceFrame") {
            proof {
                lemma_written_name_is_read_back(ValueKind::SurfaceFrame);
            }
            return Some(ValueKind::SurfaceFrame);
        }
        if span_is(&chars, span, "F32") {
            proof {
                lemma_old_name_is_read(name@);
            }
            return Some(ValueKind::F64);
        }
        if span_is(&chars, span, "IVec2") {
            proof {
                lemma_old_name_is_read(name@);
            }
            return Some(ValueKind::DVec2);
        }
        if span_is(&chars, span, "UVec2") {
            proof {
                lemma_old_name_is_read(name@);
            }
            return Some(ValueKind::DVec2);
        }
        if span_is(&chars, span, "VecF32") {
            proof {
                lemma_old_name_is_read(name@);
            }
            return Some(ValueKind::VecF64);
        }
        if span_is(&chars, span, "ManipulatorGroupIds") {
            proof {
                lemma_old_name_is_read(name@);
            }
            return Some(ValueKind::PointIds);
        }
        if span_is(&chars, span, "GradientPositions") {
            proof {
                lemma_old_name_is_read(name@);
            }
            return Some(ValueKind::GradientStops);
        }
        if span_is(&chars, span, "LineCap") {
            proof {
                lemma_old_name_is_read(name@);
            }
            return Some(ValueKind::StrokeCap);
        }
        if span_is(&chars, span, "LineJoin") {
            proof {
                lemma_old_name_is_read(name@);
            }
            return Some(ValueKind::StrokeJoin);
        }
        assert forall|other: ValueKind| other.persisted_name() != Some(name@) by {
            lemma_name_is_not_written(other, name@);
        }
        None
    }
}

/// What the names hold, letter by letter.
#[verifier::rlimit(50)]
proof fn reveal_names()
    ensures
        "None"@ == seq!['N', 'o', 'n', 'e'],
        "F64"@ == seq!['F', '6', '4'],
        "U32"@ == seq!['U', '3', '2'],
        "U64"@ == seq!['U', '6', '4'],
        "Bool"@ == seq!['B', 'o', 'o', 'l'],
        "String"@ == seq!['S', 't', 'r', 'i', 'n', 'g'],
        "DVec2"@ == seq!['D', 'V', 'e', 'c', '2'],
        "DAffine2"@ == seq!['D', 'A', 'f', 'f', 'i', 'n', 'e', '2'],
        "OptionalF64"@ == seq!['O', 'p', 't', 'i', 'o', 'n', 'a', 'l', 'F', '6', '4'],
        "OptionalDVec2"@ == seq!['O', 'p', 't', 'i', 'o', 'n', 'a', 'l', 'D', 'V', 'e', 'c', '2'],
        "VecF64"@ == seq!['V', 'e', 'c', 'F', '6', '4'],
        "VecU64"@ == seq!['V', 'e', 'c', 'U', '6', '4'],
        "VecDVec2"@ == seq!['V', 'e', 'c', 'D', 'V', 'e', 'c', '2'],
        "F64Array4"@ == seq!['F', '6', '4', 'A', 'r', 'r', 'a', 'y', '4'],
        "NodePath"@ == seq!['N', 'o', 'd', 'e', 'P', 'a', 't', 'h'],
        "PointIds"@ == seq!['P', 'o', 'i', 'n', 't', 'I', 'd', 's'],
        "RasterData"@ == seq!['R', 'a', 's', 't', 'e', 'r', 'D', 'a', 't', 'a'],
        "ArtboardGroup"@ == seq!['A', 'r', 't', 'b', 'o', 'a', 'r', 'd', 'G', 'r', 'o', 'u', 'p'],
        "Artboard"@ == seq!['A', 'r', 't', 'b', 'o', 'a', 'r', 'd'],
        "Image"@ == seq!['I', 'm', 'a', 'g', 'e'],
        "Color"@ == seq!['C', 'o', 'l', 'o', 'r'],
        "OptionalColor"@ == seq!['O', 'p', 't', 'i', 'o', 'n', 'a', 'l', 'C', 'o', 'l', 'o', 'r'],
        "Palette"@ == seq!['P', 'a', 'l', 'e', 't', 't', 'e'],
        "Subpaths"@ == seq!['S', 'u', 'b', 'p', 'a', 't', 'h', 's'],
        "Fill"@ == seq!['F', 'i', 'l', 'l'],
        "Gradient"@ == seq!['G', 'r', 'a', 'd', 'i', 'e', 'n', 't'],
        "GradientStops"@ == seq!['G', 'r', 'a', 'd', 'i', 'e', 'n', 't', 'S', 't', 'o', 'p', 's'],
        "Font"@ == seq!['F', 'o', 'n', 't'],
        "Footprint"@ == seq!['F', 'o', 'o', 't', 'p', 'r', 'i', 'n', 't'],
        "FontCache"@ == seq!['F', 'o', 'n', 't', 'C', 'a', 'c', 'h', 'e'],
        "BlendMode"@ == seq!['B', 'l', 'e', 'n', 'd', 'M', 'o', 'd', 'e'],
        "ReferencePoint"@ == seq!['R', 'e', 'f', 'e', 'r', 'e', 'n', 'c', 'e', 'P', 'o', 'i', 'n', 't'],
        "ArcType"@ == seq!['A', 'r', 'c', 'T', 'y', 'p', 'e'],
        "GridType"@ == seq!['G', 'r', 'i', 'd', 'T', 'y', 'p', 'e'],
        "MergeByDistanceAlgorithm"@ == seq!['M', 'e', 'r', 'g', 'e', 'B', 'y', 'D', 'i', 's', 't', 'a', 'n', 'c', 'e', 'A', 'l', 'g', 'o', 'r', 'i', 't', 'h', 'm'],
        "FillType"@ == seq!['F', 'i', 'l', 'l', 'T', 'y', 'p', 'e'],
        "GradientType"@ == seq!['G', 'r', 'a', 'd', 'i', 'e', 'n', 't', 'T', 'y', 'p', 'e'],
        "StrokeCap"@ == seq!['S', 't', 'r', 'o', 'k', 'e', 'C', 'a', 'p'],
        "StrokeJoin"@ == seq!['S', 't', 'r', 'o', 'k', 'e', 'J', 'o', 'i', 'n'],
        "StrokeAlign"@ == seq!['S', 't', 'r', 'o', 'k', 'e', 'A', 'l', 'i', 'g', 'n'],
        "PaintOrder"@ == seq!['P', 'a', 'i', 'n', 't', 'O', 'r', 'd', 'e', 'r'],
        "NoiseType"@ == seq!['N', 'o', 'i', 's', 'e', 'T', 'y', 'p', 'e'],
        "FractalType"@ == seq!['F', 'r', 'a', 'c', 't', 'a', 'l', 'T', 'y', 'p', 'e'],
        "RenderOutput"@ == seq!['R', 'e', 'n', 'd', 'e', 'r', 'O', 'u', 't', 'p', 'u', 't'],
        "SurfaceFrame"@ == seq!['S', 'u', 'r', 'f', 'a', 'c', 'e', 'F', 'r', 'a', 'm', 'e'],
        "F32"@ == seq!['F', '3', '2'],
        "IVec2"@ == seq!['I', 'V', 'e', 'c', '2'],
        "UVec2"@ == seq!['U', 'V', 'e', 'c', '2'],
        "VecF32"@ == seq!['V', 'e', 'c', 'F', '3', '2'],
        "ManipulatorGroupIds"@ == seq!['M', 'a', 'n', 'i', 'p', 'u', 'l', 'a', 't', 'o', 'r', 'G', 'r', 'o', 'u', 'p', 'I', 'd', 's'],
        "GradientPositions"@ == seq!['G', 'r', 'a', 'd', 'i', 'e', 'n', 't', 'P', 'o', 's', 'i', 't', 'i', 'o', 'n', 's'],
        "LineCap"@ == seq!['L', 'i', 'n', 'e', 'C', 'a', 'p'],
        "LineJoin"@ == seq!['L', 'i', 'n', 'e', 'J', 'o', 'i', 'n'],
{
    reveal_strlit("None");
    assert("None"@ =~= seq!['N', 'o', 'n', 'e']);
    reveal_strlit("F64");
    assert("F64"@ =~= seq!['F', '6', '4']);
    reveal_strlit("U32");
    assert("U32"@ =~= seq!['U', '3', '2']);
    reveal_strlit("U64");
    assert("U64"@ =~= seq!['U', '6', '4']);
    reveal_strlit("Bool");
    assert("Bool"@ =~= seq!['B', 'o', 'o', 'l']);
    reveal_strlit("String");
    assert("String"@ =~= seq!['S', 't', 'r', 'i', 'n', 'g']);
    reveal_strlit("DVec2");
    assert("DVec2"@ =~= seq!['D', 'V', 'e', 'c', '2']);
    reveal_strlit("DAffine2");
    assert("DAffine2"@ =~= seq!['D', 'A', 'f', 'f', 'i', 'n', 'e', '2']);
    reveal_strlit("OptionalF64");
    assert("OptionalF64"@ =~= seq!['O', 'p', 't', 'i', 'o', 'n', 'a', 'l', 'F', '6', '4']);
    reveal_strlit("OptionalDVec2");
    assert("OptionalDVec2"@ =~= seq!['O', 'p', 't', 'i', 'o', 'n', 'a', 'l', 'D', 'V', 'e', 'c', '2']);
    reveal_strlit("VecF64");
    assert("VecF64"@ =~= seq!['V', 'e', 'c', 'F', '6', '4']);
    reveal_strlit("VecU64");
    assert("VecU64"@ =~= seq!['V', 'e', 'c', 'U', '6', '4']);
    reveal_strlit("VecDVec2");
    assert("VecDVec2"@ =~= seq!['V', 'e', 'c', 'D', 'V', 'e', 'c', '2']);
    reveal_strlit("F64Array4");
    assert("F64Array4"@ =~= seq!['F', '6', '4', 'A', 'r', 'r', 'a', 'y', '4']);
    reveal_strlit("NodePath");
    assert("NodePath"@ =~= seq!['N', 'o', 'd', 'e', 'P', 'a', 't', 'h']);
    reveal_strlit("PointIds");
    assert("PointIds"@ =~= seq!['P', 'o', 'i', 'n', 't', 'I', 'd', 's']);
    reveal_strlit("RasterData");
    assert("RasterData"@ =~= seq!['R', 'a', 's', 't', 'e', 'r', 'D', 'a', 't', 'a']);
    reveal_strlit("ArtboardGroup");
    assert("ArtboardGroup"@ =~= seq!['A', 'r', 't', 'b', 'o', 'a', 'r', 'd', 'G', 'r', 'o', 'u', 'p']);
    reveal_strlit("Artboard");
    assert("Artboard"@ =~= seq!['A', 'r', 't', 'b', 'o', 'a', 'r', 'd']);
    reveal_strlit("Image");
    assert("Image"@ =~= seq!['I', 'm', 'a', 'g', 'e']);
    reveal_strlit("Color");
    assert("Color"@ =~= seq!['C', 'o', 'l', 'o', 'r']);
    reveal_strlit("OptionalColor");
    assert("OptionalColor"@ =~= seq!['O', 'p', 't', 'i', 'o', 'n', 'a', 'l', 'C', 'o', 'l', 'o', 'r']);
    reveal_strlit("Palette");
    assert("Palette"@ =~= seq!['P', 'a', 'l', 'e', 't', 't', 'e']);
    reveal_strlit("Subpaths");
    assert("Subpaths"@ =~= seq!['S', 'u', 'b', 'p', 'a', 't', 'h', 's']);
    reveal_strlit("Fill");
    assert("Fill"@ =~= seq!['F', 'i', 'l', 'l']);
    reveal_strlit("Gradient");
    assert("Gradient"@ =~= seq!['G', 'r', 'a', 'd', 'i', 'e', 'n', 't']);
    reveal_strlit("GradientStops");
    assert("GradientStops"@ =~= seq!['G', 'r', 'a', 'd', 'i', 'e', 'n', 't', 'S', 't', 'o', 'p', 's']);
    reveal_strlit("Font");
    assert("Font"@ =~= seq!['F', 'o', 'n', 't']);
    reveal_strlit("Footprint");
    assert("Footprint"@ =~= seq!['F', 'o', 'o', 't', 'p', 'r', 'i', 'n', 't']);
    reveal_strlit("FontCache");
    assert("FontCache"@ =~= seq!['F', 'o', 'n', 't', 'C', 'a', 'c', 'h', 'e']);
    reveal_strlit("BlendMode");
    assert("BlendMode"@ =~= seq!['B', 'l', 'e', 'n', 'd', 'M', 'o', 'd', 'e']);
    reveal_strlit("ReferencePoint");
    assert("ReferencePoint"@ =~= seq!['R', 'e', 'f', 'e', 'r', 'e', 'n', 'c', 'e', 'P', 'o', 'i', 'n', 't']);
    reveal_strlit("ArcType");
    assert("ArcType"@ =~= seq!['A', 'r', 'c', 'T', 'y', 'p', 'e']);
    reveal_strlit("GridType");
    assert("GridType"@ =~= seq!['G', 'r', 'i', 'd', 'T', 'y', 'p', 'e']);
    reveal_strlit("MergeByDistanceAlgorithm");
    assert("MergeByDistanceAlgorithm"@ =~= seq!['M', 'e', 'r', 'g', 'e', 'B', 'y', 'D', 'i', 's', 't', 'a', 'n', 'c', 'e', 'A', 'l', 'g', 'o', 'r', 'i', 't', 'h', 'm']);
    reveal_strlit("FillType");
    assert("FillType"@ =~= seq!['F', 'i', 'l', 'l', 'T', 'y', 'p', 'e']);
    reveal_strlit("GradientType");
    assert("GradientType"@ =~= seq!['G', 'r', 'a', 'd', 'i', 'e', 'n', 't', 'T', 'y', 'p', 'e']);
    reveal_strlit("StrokeCap");
    assert("StrokeCap"@ =~= seq!['S', 't', 'r', 'o', 'k', 'e', 'C', 'a', 'p']);
    reveal_strlit("StrokeJoin");
    assert("StrokeJoin"@ =~= seq!['S', 't', 'r', 'o', 'k', 'e', 'J', 'o', 'i', 'n']);
    reveal_strlit("StrokeAlign");
    assert("StrokeAlign"@ =~= seq!['S', 't', 'r', 'o', 'k', 'e', 'A', 'l', 'i', 'g', 'n']);
    reveal_strlit("PaintOrder");
    assert("PaintOrder"@ =~= seq!['P', 'a', 'i', 'n', 't', 'O', 'r', 'd', 'e', 'r']);
    reveal_strlit("NoiseType");
    assert("NoiseType"@ =~= seq!['N', 'o', 'i', 's', 'e', 'T', 'y', 'p', 'e']);
    reveal_strlit("FractalType");
    assert("FractalType"@ =~= seq!['F', 'r', 'a', 'c', 't', 'a', 'l', 'T', 'y', 'p', 'e']);
    reveal_strlit("RenderOutput");
    assert("RenderOutput"@ =~= seq!['R', 'e', 'n', 'd', 'e', 'r', 'O', 'u', 't', 'p', 'u', 't']);
    reveal_strlit("SurfaceFrame");
    assert("SurfaceFrame"@ =~= seq!['S', 'u', 'r', 'f', 'a', 'c', 'e', 'F', 'r', 'a', 'm', 'e']);
    reveal_strlit("F32");
    assert("F32"@ =~= seq!['F', '3', '2']);
    reveal_strlit("IVec2");
    assert("IVec2"@ =~= seq!['I', 'V', 'e', 'c', '2']);
    reveal_strlit("UVec2");
    assert("UVec2"@ =~= seq!['U', 'V', 'e', 'c', '2']);
    reveal_strlit("VecF32");
    assert("VecF32"@ =~= seq!['V', 'e', 'c', 'F', '3', '2']);
    reveal_strlit("ManipulatorGroupIds");
    assert("ManipulatorGroupIds"@ =~= seq!['M', 'a', 'n', 'i', 'p', 'u', 'l', 'a', 't', 'o', 'r', 'G', 'r', 'o', 'u', 'p', 'I', 'd', 's']);
    reveal_strlit("GradientPositions");
    assert("GradientPositions"@ =~= seq!['G', 'r', 'a', 'd', 'i', 'e', 'n', 't', 'P', 'o', 's', 'i', 't', 'i', 'o', 'n', 's']);
    reveal_strlit("LineCap");
    assert("LineCap"@ =~= seq!['L', 'i', 'n', 'e', 'C', 'a', 'p']);
    reveal_strlit("LineJoin");
    assert("LineJoin"@ =~= seq!['L', 'i', 'n', 'e', 'J', 'o', 'i', 'n']);
}

/// A name that is none of the names that are written is the name of no kind.
proof fn lemma_name_is_not_written(kind: ValueKind, name: Seq<char>)
    requires
        name != "None"@,
        name != "F64"@,
        name != "U32"@,
        name != "U64"@,
        name != "Bool"@,
        name != "String"@,
        name != "DVec2"@,
        name != "DAffine2"@,
        name != "OptionalF64"@,
        name != "OptionalDVec2"@,
        name != "VecF64"@,
        name != "VecU64"@,
        name != "VecDVec2"@,
        name != "F64Array4"@,
        name != "NodePath"@,
        name != "PointIds"@,
        name != "RasterData"@,
        name != "ArtboardGroup"@,
        name != "Artboard"@,
        name != "Image"@,
        name != "Color"@,
        name != "OptionalColor"@,
        name != "Palette"@,
        name != "Subpaths"@,
        name != "Fill"@,
        name != "Gradient"@,
        name != "GradientStops"@,
        name != "Font"@,
        name != "Footprint"@,
        name != "FontCache"@,
        name != "BlendMode"@,
        name != "ReferencePoint"@,
        name != "ArcType"@,
        name != "GridType"@,
        name != "MergeByDistanceAlgorithm"@,
        name != "FillType"@,
        name != "GradientType"@,
        name != "StrokeCap"@,
        name != "StrokeJoin"@,
        name != "StrokeAlign"@,
        name != "PaintOrder"@,
        name != "NoiseType"@,
        name != "FractalType"@,
        name != "RenderOutput"@,
        name != "SurfaceFrame"@,
    ensures
        kind.persisted_name() != Some(name),
{
}

/// What tells the names apart: the length of a name, its first letter, its
/// fourth where it has one, and its last.
spec fn name_mark(s: Seq<char>) -> (nat, char, char, char) {
    (
        s.len(),
        if s.len() > 0 {
            s[0]
        } else {
            ' '
        },
        if s.len() > 3 {
            s[3]
        } else {
            ' '
        },
        if s.len() > 0 {
            s.last()
        } else {
            ' '
        },
    )
}

/// No two kinds are written under the same name.
#[verifier::rlimit(50)]
pub proof fn lemma_names_are_distinct(a: ValueKind, b: ValueKind)
    requires
        a.persisted_name() is Some,
        a.persisted_name() == b.persisted_name(),
    ensures
        a == b,
{
    reveal_names();
    assert(name_mark(a.persisted_name().unwrap()) == name_mark(b.persisted_name().unwrap()));
}

/// An old name is never written: no kind is written under it.
#[verifier::rlimit(50)]
pub proof fn lemma_old_names_are_not_written(kind: ValueKind, name: Seq<char>)
    requires
        ValueKind::of_old_name(name) is Some,
    ensures
        kind.persisted_name() != Some(name),
{
    reveal_names();
    if kind.persisted_name() == Some(name) {
        assert(name_mark(kind.persisted_name().unwrap()) == name_mark(name));
    }
}

/// Round trip: the name under which a kind is written is read as that kind.
pub proof fn lemma_written_name_is_read_back(kind: ValueKind)
    requires
        kind.persisted_name() is Some,
    ensures
        ValueKind::of_persisted_name(kind.persisted_name().unwrap()) == Some(kind),
{
    let name = kind.persisted_name().unwrap();
    assert(kind.persisted_name() == Some(name));
    lemma_names_are_distinct(kind, choose|other: ValueKind| other.persisted_name() == Some(name));
}

/// An old name is read as the kind that it once stood for.
pub proof fn lemma_old_name_is_read(name: Seq<char>)
    requires
        ValueKind::of_old_name(name) is Some,
    ensures
        ValueKind::of_persisted_name(name) == ValueKind::of_old_name(name),
{
    assert forall|other: ValueKind| other.persisted_name() != Some(name) by {
        lemma_old_names_are_not_written(other, name);
    }
}

impl RenderDataModel {
    /// Whether the rendered data is written to a document: all of it but a
    /// texture on the graphics device.
    pub open spec fn persisted(self) -> bool {
        !(self is Texture)
    }
}

impl RenderOutputType {
    /// Whether the rendered data is written to a document.
    pub fn is_persisted(&self) -> (r: bool)
        ensures
            r == self@.persisted(),
    {
        match self {
            RenderOutputType::Texture(_) => false,
            _ => true,
        }
    }
}

} // verus!
