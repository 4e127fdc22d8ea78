//! The feed of each type of payload, and the writing of it to a hasher.

use vstd::prelude::*;
use vstd::string::*;
use vstd::utf8::{encode_utf8, encode_utf8_decode_utf8};
use std::collections::hash_map::DefaultHasher;
use crate::color::Color;
use crate::font_cache::{FontCache, FontCacheModel, FontData, FontDataModel};
use crate::graphics::{
    Artboard, ArtboardModel, ManipulatorGroup, RasterInstance, RasterInstanceModel, Subpath,
    SubpathModel,
};
use crate::hash::{
    blob, flag, half, hash_list, hash_optional, lemma_blob_determines, lemma_flag_determines,
    lemma_half_determines, lemma_list_determines, lemma_optional_determines, lemma_regroup,
    lemma_word_determines, list, list_fits, models, optional, optional_fits, word, write_blob,
    write_flag, write_half, write_word, ContentHash, Feed, Feedable,
};
use crate::primitives::{Affine2, FloatBits, NodeId, PointId, Vector2};
use crate::render::{
    embedded_models, EmbeddedImage, EmbeddedImageModel, RenderDataModel, RenderOutputType,
    SurfaceFrame,
};
use crate::style::{
    Fill, FillModel, Font, FontModel, Footprint, Gradient, GradientModel, GradientStop, Image,
    ImageModel,
};

verus! {

/// The feed of a string: its bytes, then one byte that no string holds.
pub open spec fn text(s: Seq<char>) -> Feed {
    blob(encode_utf8(s)) + blob(seq![0xffu8])
}

/// Writes a string to a hasher.
pub fn write_text(state: &mut DefaultHasher, s: &str)
    ensures
        final(state)@ == old(state)@ + text(s@),
{
    write_blob(state, s.as_bytes());
    let end: [u8; 1] = [0xff];
    assert(end@ =~= seq![0xffu8]);
    write_blob(state, end.as_slice());
    assert(state@ =~= old(state)@ + text(s@));
}

/// A string is told by its feed.
pub proof fn lemma_text_determines(s: Seq<char>, t: Seq<char>, after_s: Feed, after_t: Feed)
    requires
        text(s) + after_s == text(t) + after_t,
    ensures
        s == t,
        after_s == after_t,
{
    let end = blob(seq![0xffu8]);
    lemma_regroup(blob(encode_utf8(s)), end, after_s);
    lemma_regroup(blob(encode_utf8(t)), end, after_t);
    lemma_blob_determines(encode_utf8(s), encode_utf8(t), end + after_s, end + after_t);
    lemma_blob_determines(seq![0xffu8], seq![0xffu8], after_s, after_t);
    encode_utf8_decode_utf8(s);
    encode_utf8_decode_utf8(t);
}

impl Feedable for u64 {
    open spec fn feed(self) -> Feed {
        word(self)
    }

    open spec fn fits(self) -> bool {
        true
    }

    proof fn lemma_feed_determines(a: Self, b: Self, after_a: Feed, after_b: Feed) {
        lemma_word_determines(a, b, after_a, after_b);
    }
}

impl ContentHash for u64 {
    fn hash_into(&self, state: &mut DefaultHasher) {
        write_word(state, *self);
    }

    proof fn lemma_model_fits(&self) {
    }
}

impl Feedable for FloatBits {
    open spec fn feed(self) -> Feed {
        word(self.bits)
    }

    open spec fn fits(self) -> bool {
        true
    }

    proof fn lemma_feed_determines(a: Self, b: Self, after_a: Feed, after_b: Feed) {
        lemma_word_determines(a.bits, b.bits, after_a, after_b);
    }
}

impl ContentHash for FloatBits {
    fn hash_into(&self, state: &mut DefaultHasher) {
        write_word(state, self.bits);
    }

    proof fn lemma_model_fits(&self) {
    }
}

impl Feedable for NodeId {
    open spec fn feed(self) -> Feed {
        word(self.id)
    }

    open spec fn fits(self) -> bool {
        true
    }

    proof fn lemma_feed_determines(a: Self, b: Self, after_a: Feed, after_b: Feed) {
        lemma_word_determines(a.id, b.id, after_a, after_b);
    }
}

impl ContentHash for NodeId {
    fn hash_into(&self, state: &mut DefaultHasher) {
        write_word(state, self.id);
    }

    proof fn lemma_model_fits(&self) {
    }
}

impl Feedable for PointId {
    open spec fn feed(self) -> Feed {
        word(self.id)
    }

    open spec fn fits(self) -> bool {
        true
    }

    proof fn lemma_feed_determines(a: Self, b: Self, after_a: Feed, after_b: Feed) {
        lemma_word_determines(a.id, b.id, after_a, after_b);
    }
}

impl ContentHash for PointId {
    fn hash_into(&self, state: &mut DefaultHasher) {
        write_word(state, self.id);
    }

    proof fn lemma_model_fits(&self) {
    }
}

impl Feedable for Vector2 {
    open spec fn feed(self) -> Feed {
        self.x.feed() + self.y.feed()
    }

    open spec fn fits(self) -> bool {
        true
    }

    proof fn lemma_feed_determines(a: Self, b: Self, after_a: Feed, after_b: Feed) {
        lemma_regroup(a.x.feed(), a.y.feed(), after_a);
        lemma_regroup(b.x.feed(), b.y.feed(), after_b);
        FloatBits::lemma_feed_determines(a.x, b.x, a.y.feed() + after_a, b.y.feed() + after_b);
        FloatBits::lemma_feed_determines(a.y, b.y, after_a, after_b);
    }
}

impl ContentHash for Vector2 {
    fn hash_into(&self, state: &mut DefaultHasher) {
        self.x.hash_into(state);
        self.y.hash_into(state);
        assert(state@ =~= old(state)@ + self@.feed());
    }

    proof fn lemma_model_fits(&self) {
    }
}

impl Feedable for Affine2 {
    open spec fn feed(self) -> Feed {
        self.x_axis.feed() + self.y_axis.feed() + self.translation.feed()
    }

    open spec fn fits(self) -> bool {
        true
    }

    proof fn lemma_feed_determines(a: Self, b: Self, after_a: Feed, after_b: Feed) {
        lemma_regroup(a.x_axis.feed() + a.y_axis.feed(), a.translation.feed(), after_a);
        lemma_regroup(b.x_axis.feed() + b.y_axis.feed(), b.translation.feed(), after_b);
        lemma_regroup(a.x_axis.feed(), a.y_axis.feed(), a.translation.feed() + after_a);
        lemma_regroup(b.x_axis.feed(), b.y_axis.feed(), b.translation.feed() + after_b);
        Vector2::lemma_feed_determines(
            a.x_axis,
            b.x_axis,
            a.y_axis.feed() + (a.translation.feed() + after_a),
            b.y_axis.feed() + (b.translation.feed() + after_b),
        );
        Vector2::lemma_feed_determines(
            a.y_axis,
            b.y_axis,
            a.translation.feed() + after_a,
            b.translation.feed() + after_b,
        );
        Vector2::lemma_feed_determines(a.translation, b.translation, after_a, after_b);
    }
}

impl ContentHash for Affine2 {
    fn hash_into(&self, state: &mut DefaultHasher) {
        self.x_axis.hash_into(state);
        self.y_axis.hash_into(state);
        self.translation.hash_into(state);
        assert(state@ =~= old(state)@ + self@.feed());
    }

    proof fn lemma_model_fits(&self) {
    }
}

impl Feedable for Color {
    open spec fn feed(self) -> Feed {
        blob(seq![self.red, self.green, self.blue, self.alpha])
    }

    open spec fn fits(self) -> bool {
        true
    }

    proof fn lemma_feed_determines(a: Self, b: Self, after_a: Feed, after_b: Feed) {
        let bytes_a = seq![a.red, a.green, a.blue, a.alpha];
        let bytes_b = seq![b.red, b.green, b.blue, b.alpha];
        lemma_blob_determines(bytes_a, bytes_b, after_a, after_b);
        assert(bytes_a[0] == bytes_b[0]);
        assert(bytes_a[1] == bytes_b[1]);
        assert(bytes_a[2] == bytes_b[2]);
        assert(bytes_a[3] == bytes_b[3]);
    }
}

impl ContentHash for Color {
    fn hash_into(&self, state: &mut DefaultHasher) {
        let bytes: [u8; 4] = [self.red, self.green, self.blue, self.alpha];
        assert(bytes@ =~= seq![self.red, self.green, self.blue, self.alpha]);
        write_blob(state, bytes.as_slice());
    }

    proof fn lemma_model_fits(&self) {
    }
}

impl Feedable for GradientStop {
    open spec fn feed(self) -> Feed {
        self.position.feed() + self.color.feed()
    }

    open spec fn fits(self) -> bool {
        true
    }

    proof fn lemma_feed_determines(a: Self, b: Self, after_a: Feed, after_b: Feed) {
        lemma_regroup(a.position.feed(), a.color.feed(), after_a);
        lemma_regroup(b.position.feed(), b.color.feed(), after_b);
        FloatBits::lemma_feed_determines(
            a.position,
            b.position,
            a.color.feed() + after_a,
            b.color.feed() + after_b,
        );
        Color::lemma_feed_determines(a.color, b.color, after_a, after_b);
    }
}

impl ContentHash for GradientStop {
    fn hash_into(&self, state: &mut DefaultHasher) {
        self.position.hash_into(state);
        self.color.hash_into(state);
        assert(state@ =~= old(state)@ + self@.feed());
    }

    proof fn lemma_model_fits(&self) {
    }
}

impl Feedable for ImageModel {
    open spec fn feed(self) -> Feed {
        half(self.width) + half(self.height) + list(self.data)
    }

    open spec fn fits(self) -> bool {
        list_fits(self.data)
    }

    proof fn lemma_feed_determines(a: Self, b: Self, after_a: Feed, after_b: Feed) {
        lemma_regroup(half(a.width) + half(a.height), list(a.data), after_a);
        lemma_regroup(half(b.width) + half(b.height), list(b.data), after_b);
        lemma_regroup(half(a.width), half(a.height), list(a.data) + after_a);
        lemma_regroup(half(b.width), half(b.height), list(b.data) + after_b);
        lemma_half_determines(
            a.width,
            b.width,
            half(a.height) + (list(a.data) + after_a),
            half(b.height) + (list(b.data) + after_b),
        );
        lemma_half_determines(a.height, b.height, list(a.data) + after_a, list(b.data) + after_b);
        lemma_list_determines(a.data, b.data, after_a, after_b);
    }
}

impl ContentHash for Image {
    fn hash_into(&self, state: &mut DefaultHasher) {
        write_half(state, self.width);
        write_half(state, self.height);
        hash_list(&self.data, state);
        assert(models(self.data@) =~= self.data@);
        assert(state@ =~= old(state)@ + self@.feed());
    }

    proof fn lemma_model_fits(&self) {
        assert(self.data@.len() == self.data.len());
    }
}

impl Feedable for FontModel {
    open spec fn feed(self) -> Feed {
        text(self.family) + text(self.style)
    }

    open spec fn fits(self) -> bool {
        true
    }

    proof fn lemma_feed_determines(a: Self, b: Self, after_a: Feed, after_b: Feed) {
        lemma_regroup(text(a.family), text(a.style), after_a);
        lemma_regroup(text(b.family), text(b.style), after_b);
        lemma_text_determines(a.family, b.family, text(a.style) + after_a, text(b.style) + after_b);
        lemma_text_determines(a.style, b.style, after_a, after_b);
    }
}

impl ContentHash for Font {
    fn hash_into(&self, state: &mut DefaultHasher) {
        write_text(state, self.family.as_str());
        write_text(state, self.style.as_str());
        assert(state@ =~= old(state)@ + self@.feed());
    }

    proof fn lemma_model_fits(&self) {
    }
}

impl Feedable for GradientModel {
    open spec fn feed(self) -> Feed {
        list(self.stops) + word(self.gradient_type.index()) + self.start.feed() + self.end.feed()
            + self.transform.feed()
    }

    open spec fn fits(self) -> bool {
        list_fits(self.stops)
    }

    proof fn lemma_feed_determines(a: Self, b: Self, after_a: Feed, after_b: Feed) {
        let rest_a = word(a.gradient_type.index()) + (a.start.feed() + (a.end.feed() + (
            a.transform.feed() + after_a)));
        let rest_b = word(b.gradient_type.index()) + (b.start.feed() + (b.end.feed() + (
            b.transform.feed() + after_b)));
        assert(a.feed() + after_a =~= list(a.stops) + rest_a);
        assert(b.feed() + after_b =~= list(b.stops) + rest_b);
        lemma_list_determines(a.stops, b.stops, rest_a, rest_b);
        lemma_word_determines(
            a.gradient_type.index(),
            b.gradient_type.index(),
            a.start.feed() + (a.end.feed() + (a.transform.feed() + after_a)),
            b.start.feed() + (b.end.feed() + (b.transform.feed() + after_b)),
        );
        Vector2::lemma_feed_determines(
            a.start,
            b.start,
            a.end.feed() + (a.transform.feed() + after_a),
            b.end.feed() + (b.transform.feed() + after_b),
        );
        Vector2::lemma_feed_determines(
            a.end,
            b.end,
            a.transform.feed() + after_a,
            b.transform.feed() + after_b,
        );
        Affine2::lemma_feed_determines(a.transform, b.transform, after_a, after_b);
    }
}

impl ContentHash for Gradient {
    fn hash_into(&self, state: &mut DefaultHasher) {
        hash_list(&self.stops.stops, state);
        assert(models(self.stops.stops@) =~= self.stops@);
        write_word(state, self.gradient_type.code());
        self.start.hash_into(state);
        self.end.hash_into(state);
        self.transform.hash_into(state);
        assert(state@ =~= old(state)@ + self@.feed());
    }

    proof fn lemma_model_fits(&self) {
        assert(self.stops.stops@.len() == self.stops.stops.len());
    }
}

impl Feedable for FillModel {
    open spec fn feed(self) -> Feed {
        match self {
            FillModel::NoFill => word(0),
            FillModel::Solid(color) => word(1) + color.feed(),
            FillModel::Gradient(gradient) => word(2) + gradient.feed(),
        }
    }

    open spec fn fits(self) -> bool {
        match self {
            FillModel::Gradient(gradient) => gradient.fits(),
            _ => true,
        }
    }

    proof fn lemma_feed_determines(a: Self, b: Self, after_a: Feed, after_b: Feed) {
        let (tag_a, rest_a): (u64, Feed) = match a {
            FillModel::NoFill => (0, Seq::empty()),
            FillModel::Solid(color) => (1, color.feed()),
            FillModel::Gradient(gradient) => (2, gradient.feed()),
        };
        let (tag_b, rest_b): (u64, Feed) = match b {
            FillModel::NoFill => (0, Seq::empty()),
            FillModel::Solid(color) => (1, color.feed()),
            FillModel::Gradient(gradient) => (2, gradient.feed()),
        };
        assert(a.feed() + after_a =~= word(tag_a) + (rest_a + after_a));
        assert(b.feed() + after_b =~= word(tag_b) + (rest_b + after_b));
        lemma_word_determines(tag_a, tag_b, rest_a + after_a, rest_b + after_b);
        match (a, b) {
            (FillModel::Solid(x), FillModel::Solid(y)) => {
                Color::lemma_feed_determines(x, y, after_a, after_b);
            },
            (FillModel::Gradient(x), FillModel::Gradient(y)) => {
                GradientModel::lemma_feed_determines(x, y, after_a, after_b);
            },
            _ => {
                assert(rest_a + after_a =~= after_a);
                assert(rest_b + after_b =~= after_b);
            },
        }
    }
}

impl ContentHash for Fill {
    fn hash_into(&self, state: &mut DefaultHasher) {
        match self {
            Fill::NoFill => {
                write_word(state, 0);
            },
            Fill::Solid(color) => {
                write_word(state, 1);
                color.hash_into(state);
                assert(state@ =~= old(state)@ + self@.feed());
            },
            Fill::Gradient(gradient) => {
                write_word(state, 2);
                gradient.hash_into(state);
                assert(state@ =~= old(state)@ + self@.feed());
            },
        }
    }

    proof fn lemma_model_fits(&self) {
        match self {
            Fill::Gradient(gradient) => {
                gradient.lemma_model_fits();
            },
            _ => {},
        }
    }
}

impl Feedable for Footprint {
    open spec fn feed(self) -> Feed {
        self.transform.feed() + half(self.width) + half(self.height)
    }

    open spec fn fits(self) -> bool {
        true
    }

    proof fn lemma_feed_determines(a: Self, b: Self, after_a: Feed, after_b: Feed) {
        let rest_a = half(a.width) + (half(a.height) + after_a);
        let rest_b = half(b.width) + (half(b.height) + after_b);
        assert(a.feed() + after_a =~= a.transform.feed() + rest_a);
        assert(b.feed() + after_b =~= b.transform.feed() + rest_b);
        Affine2::lemma_feed_determines(a.transform, b.transform, rest_a, rest_b);
        lemma_half_determines(a.width, b.width, half(a.height) + after_a, half(b.height) + after_b);
        lemma_half_determines(a.height, b.height, after_a, after_b);
    }
}

impl ContentHash for Footprint {
    fn hash_into(&self, state: &mut DefaultHasher) {
        self.transform.hash_into(state);
        write_half(state, self.width);
        write_half(state, self.height);
        assert(state@ =~= old(state)@ + self@.feed());
    }

    proof fn lemma_model_fits(&self) {
    }
}

impl Feedable for SurfaceFrame {
    open spec fn feed(self) -> Feed {
        word(self.surface_id.id) + half(self.width) + half(self.height) + self.transform.feed()
    }

    open spec fn fits(self) -> bool {
        true
    }

    proof fn lemma_feed_determines(a: Self, b: Self, after_a: Feed, after_b: Feed) {
        let rest_a = half(a.width) + (half(a.height) + (a.transform.feed() + after_a));
        let rest_b = half(b.width) + (half(b.height) + (b.transform.feed() + after_b));
        assert(a.feed() + after_a =~= word(a.surface_id.id) + rest_a);
        assert(b.feed() + after_b =~= word(b.surface_id.id) + rest_b);
        lemma_word_determines(a.surface_id.id, b.surface_id.id, rest_a, rest_b);
        lemma_half_determines(
            a.width,
            b.width,
            half(a.height) + (a.transform.feed() + after_a),
            half(b.height) + (b.transform.feed() + after_b),
        );
        lemma_half_determines(
            a.height,
            b.height,
            a.transform.feed() + after_a,
            b.transform.feed() + after_b,
        );
        Affine2::lemma_feed_determines(a.transform, b.transform, after_a, after_b);
    }
}

impl ContentHash for SurfaceFrame {
    fn hash_into(&self, state: &mut DefaultHasher) {
        write_word(state, self.surface_id.id);
        write_half(state, self.width);
        write_half(state, self.height);
        self.transform.hash_into(state);
        assert(state@ =~= old(state)@ + self@.feed());
    }

    proof fn lemma_model_fits(&self) {
    }
}

impl Feedable for EmbeddedImageModel {
    open spec fn feed(self) -> Feed {
        word(self.id) + self.image.feed()
    }

    open spec fn fits(self) -> bool {
        self.image.fits()
    }

    proof fn lemma_feed_determines(a: Self, b: Self, after_a: Feed, after_b: Feed) {
        lemma_regroup(word(a.id), a.image.feed(), after_a);
        lemma_regroup(word(b.id), b.image.feed(), after_b);
        lemma_word_determines(a.id, b.id, a.image.feed() + after_a, b.image.feed() + after_b);
        ImageModel::lemma_feed_determines(a.image, b.image, after_a, after_b);
    }
}

impl ContentHash for EmbeddedImage {
    fn hash_into(&self, state: &mut DefaultHasher) {
        write_word(state, self.id);
        self.image.hash_into(state);
        assert(state@ =~= old(state)@ + self@.feed());
    }

    proof fn lemma_model_fits(&self) {
        self.image.lemma_model_fits();
    }
}

impl Feedable for RenderDataModel {
    open spec fn feed(self) -> Feed {
        match self {
            RenderDataModel::CanvasFrame(frame) => word(0) + frame.feed(),
            RenderDataModel::Texture(texture) => word(1) + word(texture.id),
            RenderDataModel::Svg { svg, image_data } => word(2) + text(svg) + list(image_data),
            RenderDataModel::Image(bytes) => word(3) + word(bytes.len() as u64) + blob(bytes),
        }
    }

    open spec fn fits(self) -> bool {
        match self {
            RenderDataModel::Svg { svg, image_data } => list_fits(image_data),
            RenderDataModel::Image(bytes) => bytes.len() <= u64::MAX,
            _ => true,
        }
    }

    proof fn lemma_feed_determines(a: Self, b: Self, after_a: Feed, after_b: Feed) {
        let (tag_a, rest_a): (u64, Feed) = match a {
            RenderDataModel::CanvasFrame(frame) => (0, frame.feed()),
            RenderDataModel::Texture(texture) => (1, word(texture.id)),
            RenderDataModel::Svg { svg, image_data } => (2, text(svg) + list(image_data)),
            RenderDataModel::Image(bytes) => (3, word(bytes.len() as u64) + blob(bytes)),
        };
        let (tag_b, rest_b): (u64, Feed) = match b {
            RenderDataModel::CanvasFrame(frame) => (0, frame.feed()),
            RenderDataModel::Texture(texture) => (1, word(texture.id)),
            RenderDataModel::Svg { svg, image_data } => (2, text(svg) + list(image_data)),
            RenderDataModel::Image(bytes) => (3, word(bytes.len() as u64) + blob(bytes)),
        };
        assert(a.feed() + after_a =~= word(tag_a) + (rest_a + after_a));
        assert(b.feed() + after_b =~= word(tag_b) + (rest_b + after_b));
        lemma_word_determines(tag_a, tag_b, rest_a + after_a, rest_b + after_b);
        match (a, b) {
            (RenderDataModel::CanvasFrame(x), RenderDataModel::CanvasFrame(y)) => {
                SurfaceFrame::lemma_feed_determines(x, y, after_a, after_b);
            },
            (RenderDataModel::Texture(x), RenderDataModel::Texture(y)) => {
                lemma_word_determines(x.id, y.id, after_a, after_b);
            },
            (
                RenderDataModel::Svg { svg: svg_a, image_data: images_a },
                RenderDataModel::Svg { svg: svg_b, image_data: images_b },
            ) => {
                lemma_regroup(text(svg_a), list(images_a), after_a);
                lemma_regroup(text(svg_b), list(images_b), after_b);
                lemma_text_determines(
                    svg_a,
                    svg_b,
                    list(images_a) + after_a,
                    list(images_b) + after_b,
                );
                lemma_list_determines(images_a, images_b, after_a, after_b);
            },
            (RenderDataModel::Image(x), RenderDataModel::Image(y)) => {
                lemma_regroup(word(x.len() as u64), blob(x), after_a);
                lemma_regroup(word(y.len() as u64), blob(y), after_b);
                lemma_word_determines(
                    x.len() as u64,
                    y.len() as u64,
                    blob(x) + after_a,
                    blob(y) + after_b,
                );
                lemma_blob_determines(x, y, after_a, after_b);
            },
            _ => {},
        }
    }
}

impl ContentHash for RenderOutputType {
    fn hash_into(&self, state: &mut DefaultHasher) {
        match self {
            RenderOutputType::CanvasFrame(frame) => {
                write_word(state, 0);
                frame.hash_into(state);
                assert(state@ =~= old(state)@ + self@.feed());
            },
            RenderOutputType::Texture(texture) => {
                write_word(state, 1);
                write_word(state, texture.id);
                assert(state@ =~= old(state)@ + self@.feed());
            },
            RenderOutputType::Svg { svg, image_data } => {
                write_word(state, 2);
                write_text(state, svg.as_str());
                hash_list(image_data, state);
                assert(models(image_data@) =~= embedded_models(image_data@));
                assert(state@ =~= old(state)@ + self@.feed());
            },
            RenderOutputType::Image(bytes) => {
                write_word(state, 3);
                write_word(state, bytes.len() as u64);
                write_blob(state, bytes.as_slice());
                assert(state@ =~= old(state)@ + self@.feed());
            },
        }
    }

    proof fn lemma_model_fits(&self) {
        match self {
            RenderOutputType::Svg { svg, image_data } => {
                assert(image_data@.len() == image_data.len());
                assert forall|i: int| 0 <= i < image_data@.len() implies (#[trigger] embedded_models(
                    image_data@,
                )[i]).fits() by {
                    image_data@[i].lemma_model_fits();
                }
            },
            RenderOutputType::Image(bytes) => {
                assert(bytes@.len() == bytes.len());
            },
            _ => {},
        }
    }
}

/// The feed of a signed 32-bit number: the number counted from the smallest
/// one, as a 32-bit word.
pub open spec fn signed(x: i32) -> Feed {
    half((x + 0x8000_0000) as u32)
}

/// Writes a signed 32-bit number to a hasher.
pub fn write_signed(state: &mut DefaultHasher, x: i32)
    ensures
        final(state)@ == old(state)@ + signed(x),
{
    let shifted: i64 = x as i64 + 0x8000_0000;
    write_half(state, shifted as u32);
}

/// A signed 32-bit number is told by its feed.
pub proof fn lemma_signed_determines(x: i32, y: i32, after_x: Feed, after_y: Feed)
    requires
        signed(x) + after_x == signed(y) + after_y,
    ensures
        x == y,
        after_x == after_y,
{
    lemma_half_determines(
        (x + 0x8000_0000) as u32,
        (y + 0x8000_0000) as u32,
        after_x,
        after_y,
    );
}

impl Feedable for ManipulatorGroup {
    open spec fn feed(self) -> Feed {
        self.anchor.feed() + optional(self.in_handle) + optional(self.out_handle) + word(
            self.id.id,
        )
    }

    open spec fn fits(self) -> bool {
        true
    }

    proof fn lemma_feed_determines(a: Self, b: Self, after_a: Feed, after_b: Feed) {
        let out_a = optional(a.out_handle) + (word(a.id.id) + after_a);
        let out_b = optional(b.out_handle) + (word(b.id.id) + after_b);
        let in_a = optional(a.in_handle) + out_a;
        let in_b = optional(b.in_handle) + out_b;
        assert(a.feed() + after_a =~= a.anchor.feed() + in_a);
        assert(b.feed() + after_b =~= b.anchor.feed() + in_b);
        Vector2::lemma_feed_determines(a.anchor, b.anchor, in_a, in_b);
        lemma_optional_determines(a.in_handle, b.in_handle, out_a, out_b);
        lemma_optional_determines(
            a.out_handle,
            b.out_handle,
            word(a.id.id) + after_a,
            word(b.id.id) + after_b,
        );
        lemma_word_determines(a.id.id, b.id.id, after_a, after_b);
    }
}

impl ContentHash for ManipulatorGroup {
    fn hash_into(&self, state: &mut DefaultHasher) {
        self.anchor.hash_into(state);
        hash_optional(&self.in_handle, state);
        hash_optional(&self.out_handle, state);
        write_word(state, self.id.id);
        assert(state@ =~= old(state)@ + self@.feed());
    }

    proof fn lemma_model_fits(&self) {
    }
}

impl Feedable for SubpathModel {
    open spec fn feed(self) -> Feed {
        list(self.manipulator_groups) + flag(self.closed)
    }

    open spec fn fits(self) -> bool {
        list_fits(self.manipulator_groups)
    }

    proof fn lemma_feed_determines(a: Self, b: Self, after_a: Feed, after_b: Feed) {
        lemma_regroup(list(a.manipulator_groups), flag(a.closed), after_a);
        lemma_regroup(list(b.manipulator_groups), flag(b.closed), after_b);
        lemma_list_determines(
            a.manipulator_groups,
            b.manipulator_groups,
            flag(a.closed) + after_a,
            flag(b.closed) + after_b,
        );
        lemma_flag_determines(a.closed, b.closed, after_a, after_b);
    }
}

impl ContentHash for Subpath {
    fn hash_into(&self, state: &mut DefaultHasher) {
        hash_list(&self.manipulator_groups, state);
        assert(models(self.manipulator_groups@) =~= self.manipulator_groups@);
        write_flag(state, self.closed);
        assert(state@ =~= old(state)@ + self@.feed());
    }

    proof fn lemma_model_fits(&self) {
        assert(self.manipulator_groups@.len() == self.manipulator_groups.len());
    }
}

impl Feedable for RasterInstanceModel {
    open spec fn feed(self) -> Feed {
        self.image.feed() + self.transform.feed() + optional(self.source_node_id)
    }

    open spec fn fits(self) -> bool {
        self.image.fits()
    }

    proof fn lemma_feed_determines(a: Self, b: Self, after_a: Feed, after_b: Feed) {
        let rest_a = a.transform.feed() + (optional(a.source_node_id) + after_a);
        let rest_b = b.transform.feed() + (optional(b.source_node_id) + after_b);
        assert(a.feed() + after_a =~= a.image.feed() + rest_a);
        assert(b.feed() + after_b =~= b.image.feed() + rest_b);
        ImageModel::lemma_feed_determines(a.image, b.image, rest_a, rest_b);
        Affine2::lemma_feed_determines(
            a.transform,
            b.transform,
            optional(a.source_node_id) + after_a,
            optional(b.source_node_id) + after_b,
        );
        lemma_optional_determines(a.source_node_id, b.source_node_id, after_a, after_b);
    }
}

impl ContentHash for RasterInstance {
    fn hash_into(&self, state: &mut DefaultHasher) {
        self.image.hash_into(state);
        self.transform.hash_into(state);
        hash_optional(&self.source_node_id, state);
        assert(state@ =~= old(state)@ + self@.feed());
    }

    proof fn lemma_model_fits(&self) {
        self.image.lemma_model_fits();
    }
}

impl Feedable for ArtboardModel {
    open spec fn feed(self) -> Feed {
        text(self.label) + signed(self.x) + signed(self.y) + signed(self.width) + signed(
            self.height,
        ) + self.background.feed() + flag(self.clip)
    }

    open spec fn fits(self) -> bool {
        true
    }

    proof fn lemma_feed_determines(a: Self, b: Self, after_a: Feed, after_b: Feed) {
        let clip_a = flag(a.clip) + after_a;
        let clip_b = flag(b.clip) + after_b;
        let back_a = a.background.feed() + clip_a;
        let back_b = b.background.feed() + clip_b;
        let height_a = signed(a.height) + back_a;
        let height_b = signed(b.height) + back_b;
        let width_a = signed(a.width) + height_a;
        let width_b = signed(b.width) + height_b;
        let y_a = signed(a.y) + width_a;
        let y_b = signed(b.y) + width_b;
        let x_a = signed(a.x) + y_a;
        let x_b = signed(b.x) + y_b;
        assert(a.feed() + after_a =~= text(a.label) + x_a);
        assert(b.feed() + after_b =~= text(b.label) + x_b);
        lemma_text_determines(a.label, b.label, x_a, x_b);
        lemma_signed_determines(a.x, b.x, y_a, y_b);
        lemma_signed_determines(a.y, b.y, width_a, width_b);
        lemma_signed_determines(a.width, b.width, height_a, height_b);
        lemma_signed_determines(a.height, b.height, back_a, back_b);
        Color::lemma_feed_determines(a.background, b.background, clip_a, clip_b);
        lemma_flag_determines(a.clip, b.clip, after_a, after_b);
    }
}

impl ContentHash for Artboard {
    fn hash_into(&self, state: &mut DefaultHasher) {
        write_text(state, self.label.as_str());
        write_signed(state, self.x);
        write_signed(state, self.y);
        write_signed(state, self.width);
        write_signed(state, self.height);
        self.background.hash_into(state);
        write_flag(state, self.clip);
        assert(state@ =~= old(state)@ + self@.feed());
    }

    proof fn lemma_model_fits(&self) {
    }
}

impl Feedable for FontDataModel {
    open spec fn feed(self) -> Feed {
        self.font.feed() + word(self.data.len() as u64) + blob(self.data)
    }

    open spec fn fits(self) -> bool {
        self.data.len() <= u64::MAX
    }

    proof fn lemma_feed_determines(a: Self, b: Self, after_a: Feed, after_b: Feed) {
        let data_a = blob(a.data) + after_a;
        let data_b = blob(b.data) + after_b;
        let len_a = word(a.data.len() as u64) + data_a;
        let len_b = word(b.data.len() as u64) + data_b;
        assert(a.feed() + after_a =~= a.font.feed() + len_a);
        assert(b.feed() + after_b =~= b.font.feed() + len_b);
        FontModel::lemma_feed_determines(a.font, b.font, len_a, len_b);
        lemma_word_determines(a.data.len() as u64, b.data.len() as u64, data_a, data_b);
        lemma_blob_determines(a.data, b.data, after_a, after_b);
    }
}

impl ContentHash for FontData {
    fn hash_into(&self, state: &mut DefaultHasher) {
        self.font.hash_into(state);
        write_word(state, self.data.len() as u64);
        write_blob(state, self.data.as_slice());
        assert(state@ =~= old(state)@ + self@.feed());
    }

    proof fn lemma_model_fits(&self) {
        assert(self.data@.len() == self.data.len());
    }
}

impl Feedable for FontCacheModel {
    open spec fn feed(self) -> Feed {
        list(self.entries)
    }

    open spec fn fits(self) -> bool {
        list_fits(self.entries)
    }

    proof fn lemma_feed_determines(a: Self, b: Self, after_a: Feed, after_b: Feed) {
        lemma_list_determines(a.entries, b.entries, after_a, after_b);
    }
}

impl ContentHash for FontCache {
    fn hash_into(&self, state: &mut DefaultHasher) {
        hash_list(self.entries(), state);
    }

    proof fn lemma_model_fits(&self) {
        self.lemma_entries_fit();
    }
}

/// The models of a sequence of values in memory fit.
pub proof fn lemma_models_fit<T: ContentHash>(values: &Vec<T>) where T::V: Feedable
    ensures
        list_fits(models(values@)),
{
    assert(values@.len() == values.len());
    assert forall|i: int| 0 <= i < values@.len() implies (#[trigger] models(values@)[i]).fits() by {
        values@[i].lemma_model_fits();
    }
}

} // verus!
