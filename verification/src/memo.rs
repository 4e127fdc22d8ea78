//! The feed and the hash of a tagged value, and values that carry their hash
//! with them.
//!
//! The hash of a value is what the hasher of the standard library makes of
//! the value's feed. The feed begins with the key of the kind, so values of
//! different kinds never have the same feed; and a feed tells the value it is
//! of, so two values have the same hash only where they are the same or where
//! the hasher maps two feeds to one number.

use vstd::prelude::*;
use vstd::std_specs::hash::DefaultHasherAdditionalSpecFns;
use std::collections::hash_map::DefaultHasher;
use std::hash::Hasher;
use crate::color::Color;
use crate::feeds::{lemma_models_fit, lemma_text_determines, text, write_text};
use crate::font_cache::FontCacheModel;
use crate::graphics::ArtboardModel;
use crate::hash::{
    flag, half, hash_items, hash_list, hash_optional, items, lemma_flag_determines,
    lemma_half_determines, lemma_items_determine, lemma_list_determines,
    lemma_optional_determines, lemma_word_determines, list, list_fits, models, optional,
    optional_fits, word, write_flag, write_half, write_word, ContentHash, Feed, Feedable,
};
use crate::primitives::{Affine2, FloatBits, Vector2};
use crate::registry::lemma_one_kind_per_identity;
use crate::render::{RenderDataModel, RenderMetadataModel, RenderOutputModel, SurfaceFrame};
use crate::style::{FillModel, FontModel, Footprint, GradientModel, ImageModel};
use crate::value::{TaggedValue, ValueModel};

verus! {

/// The feed of the payload of a value. Of the result of a render only the
/// data is fed, not the metadata.
pub open spec fn payload_feed(v: ValueModel) -> Feed {
    match v {
        ValueModel::Unit => Seq::empty(),
        ValueModel::F64(x) => x.feed(),
        ValueModel::U32(x) => half(x),
        ValueModel::U64(x) => word(x),
        ValueModel::Bool(x) => flag(x),
        ValueModel::String(x) => text(x),
        ValueModel::DVec2(x) => x.feed(),
        ValueModel::DAffine2(x) => x.feed(),
        ValueModel::OptionalF64(x) => optional(x),
        ValueModel::OptionalDVec2(x) => optional(x),
        ValueModel::VecF64(x) => list(x),
        ValueModel::VecU64(x) => list(x),
        ValueModel::VecDVec2(x) => list(x),
        ValueModel::F64Array4(x) => items(x),
        ValueModel::NodePath(x) => list(x),
        ValueModel::PointIds(x) => list(x),
        ValueModel::RasterData(x) => list(x),
        ValueModel::ArtboardGroup(x) => list(x),
        ValueModel::Artboard(x) => x.feed(),
        ValueModel::Image(x) => x.feed(),
        ValueModel::Color(x) => x.feed(),
        ValueModel::OptionalColor(x) => optional(x),
        ValueModel::Palette(x) => list(x),
        ValueModel::Subpaths(x) => list(x),
        ValueModel::Fill(x) => x.feed(),
        ValueModel::Gradient(x) => x.feed(),
        ValueModel::GradientStops(x) => list(x),
        ValueModel::Font(x) => x.feed(),
        ValueModel::Footprint(x) => x.feed(),
        ValueModel::FontCache(x) => x.feed(),
        ValueModel::BlendMode(x) => word(x.index()),
        ValueModel::ReferencePoint(x) => word(x.index()),
        ValueModel::ArcType(x) => word(x.index()),
        ValueModel::GridType(x) => word(x.index()),
        ValueModel::MergeByDistanceAlgorithm(x) => word(x.index()),
        ValueModel::FillType(x) => word(x.index()),
        ValueModel::GradientType(x) => word(x.index()),
        ValueModel::StrokeCap(x) => word(x.index()),
        ValueModel::StrokeJoin(x) => word(x.index()),
        ValueModel::StrokeAlign(x) => word(x.index()),
        ValueModel::PaintOrder(x) => word(x.index()),
        ValueModel::NoiseType(x) => word(x.index()),
        ValueModel::FractalType(x) => word(x.index()),
        ValueModel::RenderOutput(x) => x.data.feed(),
        ValueModel::SurfaceFrame(x) => x.feed(),
        ValueModel::EditorApi(x) => word(x.id),
    }
}

/// The feed of a value: the key of its kind, then its payload.
pub open spec fn value_feed(v: ValueModel) -> Feed {
    word(v.kind().key()) + payload_feed(v)
}

/// Whether every sequence in a value has a length that fits in 64 bits, and
/// an array of four numbers has four. The model of a value in memory always
/// fits.
pub open spec fn value_fits(v: ValueModel) -> bool {
    match v {
        ValueModel::OptionalF64(x) => optional_fits(x),
        ValueModel::OptionalDVec2(x) => optional_fits(x),
        ValueModel::VecF64(x) => list_fits(x),
        ValueModel::VecU64(x) => list_fits(x),
        ValueModel::VecDVec2(x) => list_fits(x),
        ValueModel::F64Array4(x) => x.len() == 4,
        ValueModel::NodePath(x) => list_fits(x),
        ValueModel::PointIds(x) => list_fits(x),
        ValueModel::RasterData(x) => list_fits(x),
        ValueModel::ArtboardGroup(x) => list_fits(x),
        ValueModel::Artboard(x) => x.fits(),
        ValueModel::Image(x) => x.fits(),
        ValueModel::OptionalColor(x) => optional_fits(x),
        ValueModel::Palette(x) => list_fits(x),
        ValueModel::Subpaths(x) => list_fits(x),
        ValueModel::Fill(x) => x.fits(),
        ValueModel::Gradient(x) => x.fits(),
        ValueModel::GradientStops(x) => list_fits(x),
        ValueModel::Font(x) => x.fits(),
        ValueModel::FontCache(x) => x.fits(),
        ValueModel::RenderOutput(x) => x.data.fits(),
        _ => true,
    }
}

/// The number that the hasher of the standard library, started afresh, makes
/// of a feed.
pub open spec fn digest(feed: Feed) -> u64 {
    DefaultHasher::spec_finish(feed)
}

/// The hash of a value.
pub open spec fn hash_of(v: ValueModel) -> u64 {
    digest(value_feed(v))
}

/// The part of a value that its hash depends on: the value itself, but for
/// the result of a render, of which it is the data alone.
pub open spec fn hashed_part(v: ValueModel) -> ValueModel {
    match v {
        ValueModel::RenderOutput(output) => ValueModel::RenderOutput(
            RenderOutputModel {
                data: output.data,
                metadata: RenderMetadataModel {
                    local_transforms: Seq::empty(),
                    clip_targets: Seq::empty(),
                },
            },
        ),
        _ => v,
    }
}

impl TaggedValue {
    /// Writes the payload of the value to a hasher.
    #[verifier::rlimit(50)]
    pub fn hash_payload(&self, state: &mut DefaultHasher)
        ensures
            final(state)@ == old(state)@ + payload_feed(self@),
    {
        match self {
            TaggedValue::Unit => {
                assert(state@ =~= old(state)@ + payload_feed(self@));
            },
            TaggedValue::F64(x) => {
                x.hash_into(state);
            },
            TaggedValue::U32(x) => {
                write_half(state, *x);
            },
            TaggedValue::U64(x) => {
                write_word(state, *x);
            },
            TaggedValue::Bool(x) => {
                write_flag(state, *x);
            },
            TaggedValue::String(x) => {
                write_text(state, x.as_str());
            },
            TaggedValue::DVec2(x) => {
                x.hash_into(state);
            },
            TaggedValue::DAffine2(x) => {
                x.hash_into(state);
            },
            TaggedValue::OptionalF64(x) => {
                hash_optional(x, state);
            },
            TaggedValue::OptionalDVec2(x) => {
                hash_optional(x, state);
            },
            TaggedValue::VecF64(x) => {
                hash_list(x, state);
                assert(models(x@) =~= x@);
            },
            TaggedValue::VecU64(x) => {
                hash_list(x, state);
                assert(models(x@) =~= x@);
            },
            TaggedValue::VecDVec2(x) => {
                hash_list(x, state);
                assert(models(x@) =~= x@);
            },
            TaggedValue::F64Array4(x) => {
                hash_items(x.as_slice(), state);
                assert(models(x@) =~= x@);
            },
            TaggedValue::NodePath(x) => {
                hash_list(x, state);
                assert(models(x@) =~= x@);
            },
            TaggedValue::PointIds(x) => {
                hash_list(x, state);
                assert(models(x@) =~= x@);
            },
            TaggedValue::RasterData(x) => {
                hash_list(x, state);
            },
            TaggedValue::ArtboardGroup(x) => {
                hash_list(x, state);
            },
            TaggedValue::Artboard(x) => {
                x.hash_into(state);
            },
            TaggedValue::Image(x) => {
                x.hash_into(state);
            },
            TaggedValue::Color(x) => {
                x.hash_into(state);
            },
            TaggedValue::OptionalColor(x) => {
                hash_optional(x, state);
            },
            TaggedValue::Palette(x) => {
                hash_list(x, state);
                assert(models(x@) =~= x@);
            },
            TaggedValue::Subpaths(x) => {
                hash_list(x, state);
            },
            TaggedValue::Fill(x) => {
                x.hash_into(state);
            },
            TaggedValue::Gradient(x) => {
                x.hash_into(state);
            },
            TaggedValue::GradientStops(x) => {
                hash_list(&x.stops, state);
                assert(models(x.stops@) =~= x@);
            },
            TaggedValue::Font(x) => {
                x.hash_into(state);
            },
            TaggedValue::Footprint(x) => {
                x.hash_into(state);
            },
            TaggedValue::FontCache(x) => {
                x.hash_into(state);
            },
            TaggedValue::BlendMode(x) => {
                write_word(state, x.code());
            },
            TaggedValue::ReferencePoint(x) => {
                write_word(state, x.code());
            },
            TaggedValue::ArcType(x) => {
                write_word(state, x.code());
            },
            TaggedValue::GridType(x) => {
                write_word(state, x.code());
            },
            TaggedValue::MergeByDistanceAlgorithm(x) => {
                write_word(state, x.code());
            },
            TaggedValue::FillType(x) => {
                write_word(state, x.code());
            },
            TaggedValue::GradientType(x) => {
                write_word(state, x.code());
            },
            TaggedValue::StrokeCap(x) => {
                write_word(state, x.code());
            },
            TaggedValue::StrokeJoin(x) => {
                write_word(state, x.code());
            },
            TaggedValue::StrokeAlign(x) => {
                write_word(state, x.code());
            },
            TaggedValue::PaintOrder(x) => {
                write_word(state, x.code());
            },
            TaggedValue::NoiseType(x) => {
                write_word(state, x.code());
            },
            TaggedValue::FractalType(x) => {
                write_word(state, x.code());
            },
            TaggedValue::RenderOutput(x) => {
                x.data.hash_into(state);
            },
            TaggedValue::SurfaceFrame(x) => {
                x.hash_into(state);
            },
            TaggedValue::EditorApi(x) => {
                write_word(state, x.id);
            },
        }
    }

    /// Writes the value to a hasher: the key of its kind, then its payload.
    pub fn hash_into(&self, state: &mut DefaultHasher)
        ensures
            final(state)@ == old(state)@ + value_feed(self@),
    {
        write_word(state, self.kind().identity().key);
        self.hash_payload(state);
        assert(state@ =~= old(state)@ + value_feed(self@));
    }

    /// The hash of the value: what a fresh hasher makes of its feed.
    pub fn content_hash(&self) -> (r: u64)
        ensures
            r == hash_of(self@),
    {
        let mut state = DefaultHasher::new();
        self.hash_into(&mut state);
        assert(state@ =~= value_feed(self@));
        state.finish()
    }
}

/// A value together with its hash, which is computed once, when the two are
/// put together.
#[derive(Debug, PartialEq, Eq)]
pub struct MemoHash {
    hash: u64,
    value: TaggedValue,
}

impl View for MemoHash {
    type V = ValueModel;

    closed spec fn view(&self) -> ValueModel {
        self.value@
    }
}

impl MemoHash {
    #[verifier::type_invariant]
    pub closed spec fn hash_is_of_value(self) -> bool {
        self.hash == hash_of(self.value@)
    }

    /// Puts a value together with its hash.
    pub fn new(value: TaggedValue) -> (r: MemoHash)
        ensures
            r@ == value@,
    {
        let hash = value.content_hash();
        MemoHash { hash, value }
    }

    /// The hash of the value. Nothing is hashed again.
    pub fn hash_code(&self) -> (r: u64)
        ensures
            r == hash_of(self@),
    {
        proof {
            use_type_invariant(self);
        }
        self.hash
    }

    /// The value.
    pub fn inner(&self) -> (r: &TaggedValue)
        ensures
            r@ == self@,
    {
        &self.value
    }

    /// The value, without its hash.
    pub fn into_inner(self) -> (r: TaggedValue)
        ensures
            r@ == self@,
    {
        self.value
    }
}

impl Clone for MemoHash {
    fn clone(&self) -> (r: MemoHash)
        ensures
            r@ == self@,
    {
        proof {
            use_type_invariant(self);
        }
        MemoHash { hash: self.hash, value: self.value.clone() }
    }
}

/// The model of a value in memory fits.
#[verifier::rlimit(50)]
pub proof fn lemma_value_in_memory_fits(v: &TaggedValue)
    ensures
        value_fits(v@),
{
    match v {
        TaggedValue::VecF64(x) => {
            assert(x@.len() == x.len());
        },
        TaggedValue::VecU64(x) => {
            assert(x@.len() == x.len());
        },
        TaggedValue::VecDVec2(x) => {
            assert(x@.len() == x.len());
        },
        TaggedValue::NodePath(x) => {
            assert(x@.len() == x.len());
        },
        TaggedValue::PointIds(x) => {
            assert(x@.len() == x.len());
        },
        TaggedValue::RasterData(x) => {
            lemma_models_fit(x);
        },
        TaggedValue::ArtboardGroup(x) => {
            lemma_models_fit(x);
        },
        TaggedValue::Artboard(x) => {
            x.lemma_model_fits();
        },
        TaggedValue::Image(x) => {
            x.lemma_model_fits();
        },
        TaggedValue::Palette(x) => {
            assert(x@.len() == x.len());
        },
        TaggedValue::Subpaths(x) => {
            lemma_models_fit(x);
        },
        TaggedValue::Fill(x) => {
            x.lemma_model_fits();
        },
        TaggedValue::Gradient(x) => {
            x.lemma_model_fits();
        },
        TaggedValue::GradientStops(x) => {
            assert(x.stops@.len() == x.stops.len());
        },
        TaggedValue::Font(x) => {
            x.lemma_model_fits();
        },
        TaggedValue::FontCache(x) => {
            x.lemma_entries_fit();
        },
        TaggedValue::RenderOutput(x) => {
            x.data.lemma_model_fits();
        },
        _ => {},
    }
}

/// Hash determinism: two values with the same model have the same feed and
/// the same hash, whenever and wherever they are hashed. Their numbers are
/// compared by their bit patterns, so a value that holds a not-a-number
/// payload has the same hash as itself.
pub proof fn lemma_same_value_same_hash(a: TaggedValue, b: TaggedValue)
    requires
        a@ == b@,
    ensures
        value_feed(a@) == value_feed(b@),
        hash_of(a@) == hash_of(b@),
{
}

/// The hash of the result of a render does not depend on its metadata.
pub proof fn lemma_metadata_is_not_hashed(a: RenderOutputModel, b: RenderOutputModel)
    requires
        a.data == b.data,
    ensures
        hash_of(ValueModel::RenderOutput(a)) == hash_of(ValueModel::RenderOutput(b)),
{
}

/// Discriminant separation: values of different kinds have different feeds,
/// whatever their payloads.
pub proof fn lemma_kinds_never_collide(a: ValueModel, b: ValueModel)
    requires
        a.kind() != b.kind(),
    ensures
        value_feed(a) != value_feed(b),
{
    if value_feed(a) == value_feed(b) {
        lemma_word_determines(a.kind().key(), b.kind().key(), payload_feed(a), payload_feed(b));
        lemma_one_kind_per_identity(a.kind(), b.kind());
    }
}

/// A feed tells the value it is of: two values with the same feed are of the
/// same kind and agree in all that is hashed.
#[verifier::rlimit(50)]
pub proof fn lemma_feed_determines_value(a: ValueModel, b: ValueModel)
    requires
        value_fits(a),
        value_fits(b),
        value_feed(a) == value_feed(b),
    ensures
        hashed_part(a) == hashed_part(b),
{
    lemma_word_determines(a.kind().key(), b.kind().key(), payload_feed(a), payload_feed(b));
    lemma_one_kind_per_identity(a.kind(), b.kind());
    let after: Feed = Seq::empty();
    assert(payload_feed(a) + after =~= payload_feed(a));
    assert(payload_feed(b) + after =~= payload_feed(b));
    match (a, b) {
        (ValueModel::F64(x), ValueModel::F64(y)) => {
            FloatBits::lemma_feed_determines(x, y, after, after);
        },
        (ValueModel::U32(x), ValueModel::U32(y)) => {
            lemma_half_determines(x, y, after, after);
        },
        (ValueModel::U64(x), ValueModel::U64(y)) => {
            lemma_word_determines(x, y, after, after);
        },
        (ValueModel::Bool(x), ValueModel::Bool(y)) => {
            lemma_flag_determines(x, y, after, after);
        },
        (ValueModel::String(x), ValueModel::String(y)) => {
            lemma_text_determines(x, y, after, after);
        },
        (ValueModel::DVec2(x), ValueModel::DVec2(y)) => {
            Vector2::lemma_feed_determines(x, y, after, after);
        },
        (ValueModel::DAffine2(x), ValueModel::DAffine2(y)) => {
            Affine2::lemma_feed_determines(x, y, after, after);
        },
        (ValueModel::OptionalF64(x), ValueModel::OptionalF64(y)) => {
            lemma_optional_determines(x, y, after, after);
        },
        (ValueModel::OptionalDVec2(x), ValueModel::OptionalDVec2(y)) => {
            lemma_optional_determines(x, y, after, after);
        },
        (ValueModel::VecF64(x), ValueModel::VecF64(y)) => {
            lemma_list_determines(x, y, after, after);
        },
        (ValueModel::VecU64(x), ValueModel::VecU64(y)) => {
            lemma_list_determines(x, y, after, after);
        },
        (ValueModel::VecDVec2(x), ValueModel::VecDVec2(y)) => {
            lemma_list_determines(x, y, after, after);
        },
        (ValueModel::F64Array4(x), ValueModel::F64Array4(y)) => {
            lemma_items_determine(x, y, after, after);
        },
        (ValueModel::NodePath(x), ValueModel::NodePath(y)) => {
            lemma_list_determines(x, y, after, after);
        },
        (ValueModel::PointIds(x), ValueModel::PointIds(y)) => {
            lemma_list_determines(x, y, after, after);
        },
        (ValueModel::RasterData(x), ValueModel::RasterData(y)) => {
            lemma_list_determines(x, y, after, after);
        },
        (ValueModel::ArtboardGroup(x), ValueModel::ArtboardGroup(y)) => {
            lemma_list_determines(x, y, after, after);
        },
        (ValueModel::Artboard(x), ValueModel::Artboard(y)) => {
            ArtboardModel::lemma_feed_determines(x, y, after, after);
        },
        (ValueModel::Image(x), ValueModel::Image(y)) => {
            ImageModel::lemma_feed_determines(x, y, after, after);
        },
        (ValueModel::Color(x), ValueModel::Color(y)) => {
            Color::lemma_feed_determines(x, y, after, after);
        },
        (ValueModel::OptionalColor(x), ValueModel::OptionalColor(y)) => {
            lemma_optional_determines(x, y, after, after);
        },
        (ValueModel::Palette(x), ValueModel::Palette(y)) => {
            lemma_list_determines(x, y, after, after);
        },
        (ValueModel::Subpaths(x), ValueModel::Subpaths(y)) => {
            lemma_list_determines(x, y, after, after);
        },
        (ValueModel::Fill(x), ValueModel::Fill(y)) => {
            FillModel::lemma_feed_determines(x, y, after, after);
        },
        (ValueModel::Gradient(x), ValueModel::Gradient(y)) => {
            GradientModel::lemma_feed_determines(x, y, after, after);
        },
        (ValueModel::GradientStops(x), ValueModel::GradientStops(y)) => {
            lemma_list_determines(x, y, after, after);
        },
        (ValueModel::Font(x), ValueModel::Font(y)) => {
            FontModel::lemma_feed_determines(x, y, after, after);
        },
        (ValueModel::Footprint(x), ValueModel::Footprint(y)) => {
            Footprint::lemma_feed_determines(x, y, after, after);
        },
        (ValueModel::FontCache(x), ValueModel::FontCache(y)) => {
            FontCacheModel::lemma_feed_determines(x, y, after, after);
        },
        (ValueModel::BlendMode(x), ValueModel::BlendMode(y)) => {
            lemma_word_determines(x.index(), y.index(), after, after);
        },
        (ValueModel::ReferencePoint(x), ValueModel::ReferencePoint(y)) => {
            lemma_word_determines(x.index(), y.index(), after, after);
        },
        (ValueModel::ArcType(x), ValueModel::ArcType(y)) => {
            lemma_word_determines(x.index(), y.index(), after, after);
        },
        (ValueModel::GridType(x), ValueModel::GridType(y)) => {
            lemma_word_determines(x.index(), y.index(), after, after);
        },
        (ValueModel::MergeByDistanceAlgorithm(x), ValueModel::MergeByDistanceAlgorithm(y)) => {
            lemma_word_determines(x.index(), y.index(), after, after);
        },
        (ValueModel::FillType(x), ValueModel::FillType(y)) => {
            lemma_word_determines(x.index(), y.index(), after, after);
        },
        (ValueModel::GradientType(x), ValueModel::GradientType(y)) => {
            lemma_word_determines(x.index(), y.index(), after, after);
        },
        (ValueModel::StrokeCap(x), ValueModel::StrokeCap(y)) => {
            lemma_word_determines(x.index(), y.index(), after, after);
        },
        (ValueModel::StrokeJoin(x), ValueModel::StrokeJoin(y)) => {
            lemma_word_determines(x.index(), y.index(), after, after);
        },
        (ValueModel::StrokeAlign(x), ValueModel::StrokeAlign(y)) => {
            lemma_word_determines(x.index(), y.index(), after, after);
        },
        (ValueModel::PaintOrder(x), ValueModel::PaintOrder(y)) => {
            lemma_word_determines(x.index(), y.index(), after, after);
        },
        (ValueModel::NoiseType(x), ValueModel::NoiseType(y)) => {
            lemma_word_determines(x.index(), y.index(), after, after);
        },
        (ValueModel::FractalType(x), ValueModel::FractalType(y)) => {
            lemma_word_determines(x.index(), y.index(), after, after);
        },
        (ValueModel::RenderOutput(x), ValueModel::RenderOutput(y)) => {
            RenderDataModel::lemma_feed_determines(x.data, y.data, after, after);
        },
        (ValueModel::SurfaceFrame(x), ValueModel::SurfaceFrame(y)) => {
            SurfaceFrame::lemma_feed_determines(x, y, after, after);
        },
        (ValueModel::EditorApi(x), ValueModel::EditorApi(y)) => {
            lemma_word_determines(x.id, y.id, after, after);
        },
        _ => {},
    }
}

/// Two values that differ in what is hashed have different feeds. So they
/// have the same hash only where the hasher maps two feeds to one number.
pub proof fn lemma_different_values_different_feeds(a: ValueModel, b: ValueModel)
    requires
        value_fits(a),
        value_fits(b),
        hashed_part(a) != hashed_part(b),
    ensures
        value_feed(a) != value_feed(b),
{
    if value_feed(a) == value_feed(b) {
        lemma_feed_determines_value(a, b);
    }
}

} // verus!
