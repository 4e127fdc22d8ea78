//! Graphical data: vector geometry, tables of raster images, and artboards.

use vstd::prelude::*;
use vstd::string::*;
use crate::color::Color;
use crate::hash::models;
use crate::primitives::{Affine2, NodeId, PointId, Vector2};
use crate::replicate::{replicate_all, Replicate};
use crate::style::{Image, ImageModel};

verus! {

/// An anchor of a path, with the two handles that bend the path into it and
/// out of it, and the identifier of the point.
#[derive(Clone, Copy, Debug, PartialEq, Eq, Structural)]
pub struct ManipulatorGroup {
    pub anchor: Vector2,
    pub in_handle: Option<Vector2>,
    pub out_handle: Option<Vector2>,
    pub id: PointId,
}

/// A value of this type is its own model.
impl View for ManipulatorGroup {
    type V = ManipulatorGroup;

    open spec fn view(&self) -> ManipulatorGroup {
        *self
    }
}

/// A path through anchors, open or closed.
#[derive(Debug, PartialEq, Eq)]
pub struct Subpath {
    pub manipulator_groups: Vec<ManipulatorGroup>,
    pub closed: bool,
}

/// The model of a [`Subpath`].
pub struct SubpathModel {
    pub manipulator_groups: Seq<ManipulatorGroup>,
    pub closed: bool,
}

impl View for Subpath {
    type V = SubpathModel;

    open spec fn view(&self) -> SubpathModel {
        SubpathModel { manipulator_groups: self.manipulator_groups@, closed: self.closed }
    }
}

impl Clone for Subpath {
    fn clone(&self) -> (r: Subpath)
        ensures
            r@ == self@,
    {
        Subpath { manipulator_groups: self.manipulator_groups.clone(), closed: self.closed }
    }
}

impl Replicate for Subpath {
    fn replicate(&self) -> (r: Subpath) {
        self.clone()
    }
}

/// One raster image of a table, with the transform that places it and the
/// node that it came from.
#[derive(Debug, PartialEq, Eq)]
pub struct RasterInstance {
    pub image: Image,
    pub transform: Affine2,
    pub source_node_id: Option<NodeId>,
}

/// The model of a [`RasterInstance`].
pub struct RasterInstanceModel {
    pub image: ImageModel,
    pub transform: Affine2,
    pub source_node_id: Option<NodeId>,
}

impl View for RasterInstance {
    type V = RasterInstanceModel;

    open spec fn view(&self) -> RasterInstanceModel {
        RasterInstanceModel {
            image: self.image@,
            transform: self.transform,
            source_node_id: self.source_node_id,
        }
    }
}

impl Clone for RasterInstance {
    fn clone(&self) -> (r: RasterInstance)
        ensures
            r@ == self@,
    {
        RasterInstance {
            image: self.image.clone(),
            transform: self.transform,
            source_node_id: self.source_node_id,
        }
    }
}

impl Replicate for RasterInstance {
    fn replicate(&self) -> (r: RasterInstance) {
        self.clone()
    }
}

/// An artboard: a named rectangle of the document with a background. The
/// place of its corner and its size are whole numbers.
#[derive(Debug, PartialEq, Eq)]
pub struct Artboard {
    pub label: String,
    pub x: i32,
    pub y: i32,
    pub width: i32,
    pub height: i32,
    pub background: Color,
    pub clip: bool,
}

/// The model of an [`Artboard`].
pub struct ArtboardModel {
    pub label: Seq<char>,
    pub x: i32,
    pub y: i32,
    pub width: i32,
    pub height: i32,
    pub background: Color,
    pub clip: bool,
}

impl View for Artboard {
    type V = ArtboardModel;

    open spec fn view(&self) -> ArtboardModel {
        ArtboardModel {
            label: self.label@,
            x: self.x,
            y: self.y,
            width: self.width,
            height: self.height,
            background: self.background,
            clip: self.clip,
        }
    }
}

impl ArtboardModel {
    /// The default artboard: 1920 by 1080 at the origin, white, and not
    /// clipping what lies on it.
    pub open spec fn initial() -> ArtboardModel {
        ArtboardModel {
            label: "Artboard"@,
            x: 0,
            y: 0,
            width: 1920,
            height: 1080,
            background: Color::rgba(255, 255, 255, 255),
            clip: false,
        }
    }
}

impl Clone for Artboard {
    fn clone(&self) -> (r: Artboard)
        ensures
            r@ == self@,
    {
        Artboard {
            label: self.label.clone(),
            x: self.x,
            y: self.y,
            width: self.width,
            height: self.height,
            background: self.background,
            clip: self.clip,
        }
    }
}

impl Replicate for Artboard {
    fn replicate(&self) -> (r: Artboard) {
        self.clone()
    }
}

impl Default for Artboard {
    fn default() -> (r: Artboard)
        ensures
            r@ == ArtboardModel::initial(),
    {
        Artboard {
            label: String::from_str("Artboard"),
            x: 0,
            y: 0,
            width: 1920,
            height: 1080,
            background: Color::from_rgb8(255, 255, 255),
            clip: false,
        }
    }
}

/// Copies a sequence of paths.
pub fn clone_subpaths(paths: &Vec<Subpath>) -> (r: Vec<Subpath>)
    ensures
        models(r@) == models(paths@),
{
    replicate_all(paths)
}

/// Copies a table of raster images.
pub fn clone_raster(table: &Vec<RasterInstance>) -> (r: Vec<RasterInstance>)
    ensures
        models(r@) == models(table@),
{
    replicate_all(table)
}

/// Copies a table of artboards.
pub fn clone_artboards(table: &Vec<Artboard>) -> (r: Vec<Artboard>)
    ensures
        models(r@) == models(table@),
{
    replicate_all(table)
}

} // verus!
