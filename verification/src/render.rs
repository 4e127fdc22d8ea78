//! What a graph hands to the renderer: the rendered data, and beside it the
//! metadata that describes how it came about.

use vstd::prelude::*;
use vstd::string::*;
use crate::primitives::{Affine2, NodeId, SurfaceId, TextureHandle};
use crate::style::{Image, ImageModel};

verus! {

/// A frame on a platform surface, ready to be shown.
#[derive(Clone, Copy, Debug, PartialEq, Eq, Structural)]
pub struct SurfaceFrame {
    pub surface_id: SurfaceId,
    pub width: u32,
    pub height: u32,
    pub transform: Affine2,
}

/// A raster image embedded in vector markup, with the identifier that the
/// markup refers to it by.
#[derive(Debug, PartialEq, Eq)]
pub struct EmbeddedImage {
    pub id: u64,
    pub image: Image,
}

/// The model of an [`EmbeddedImage`].
pub struct EmbeddedImageModel {
    pub id: u64,
    pub image: ImageModel,
}

impl View for EmbeddedImage {
    type V = EmbeddedImageModel;

    open spec fn view(&self) -> EmbeddedImageModel {
        EmbeddedImageModel { id: self.id, image: self.image@ }
    }
}

impl Clone for EmbeddedImage {
    fn clone(&self) -> (r: EmbeddedImage)
        ensures
            r@ == self@,
    {
        EmbeddedImage { id: self.id, image: self.image.clone() }
    }
}

/// The models of a sequence of embedded images.
pub open spec fn embedded_models(images: Seq<EmbeddedImage>) -> Seq<EmbeddedImageModel> {
    images.map_values(|e: EmbeddedImage| e@)
}

/// Copies a sequence of embedded images.
pub fn clone_embedded(images: &Vec<EmbeddedImage>) -> (r: Vec<EmbeddedImage>)
    ensures
        embedded_models(r@) == embedded_models(images@),
{
    let mut r: Vec<EmbeddedImage> = Vec::new();
    let mut i: usize = 0;
    while i < images.len()
        invariant
            i <= images.len(),
            r.len() == i,
            forall|j: int| 0 <= j < i ==> r@[j]@ == images@[j]@,
        decreases images.len() - i,
    {
        r.push(images[i].clone());
        i = i + 1;
    }
    assert(embedded_models(r@) =~= embedded_models(images@));
    r
}

/// The rendered data.
#[derive(Debug, PartialEq, Eq)]
pub enum RenderOutputType {
    /// A frame on a platform surface.
    CanvasFrame(SurfaceFrame),
    /// A texture on the graphics device. It is never written to a document.
    Texture(TextureHandle),
    /// Vector markup, and the raster images embedded in it.
    Svg { svg: String, image_data: Vec<EmbeddedImage> },
    /// The bytes of an encoded image.
    Image(Vec<u8>),
}

/// The model of a [`RenderOutputType`].
pub enum RenderDataModel {
    CanvasFrame(SurfaceFrame),
    Texture(TextureHandle),
    Svg { svg: Seq<char>, image_data: Seq<EmbeddedImageModel> },
    Image(Seq<u8>),
}

impl View for RenderOutputType {
    type V = RenderDataModel;

    open spec fn view(&self) -> RenderDataModel {
        match self {
            RenderOutputType::CanvasFrame(frame) => RenderDataModel::CanvasFrame(*frame),
            RenderOutputType::Texture(texture) => RenderDataModel::Texture(*texture),
            RenderOutputType::Svg { svg, image_data } => RenderDataModel::Svg {
                svg: svg@,
                image_data: embedded_models(image_data@),
            },
            RenderOutputType::Image(bytes) => RenderDataModel::Image(bytes@),
        }
    }
}

impl Clone for RenderOutputType {
    fn clone(&self) -> (r: RenderOutputType)
        ensures
            r@ == self@,
    {
        match self {
            RenderOutputType::CanvasFrame(frame) => RenderOutputType::CanvasFrame(*frame),
            RenderOutputType::Texture(texture) => RenderOutputType::Texture(*texture),
            RenderOutputType::Svg { svg, image_data } => RenderOutputType::Svg {
                svg: svg.clone(),
                image_data: clone_embedded(image_data),
            },
            RenderOutputType::Image(bytes) => RenderOutputType::Image(bytes.clone()),
        }
    }
}

/// The transform under which one node was drawn.
#[derive(Clone, Copy, Debug, PartialEq, Eq, Structural)]
pub struct NodeTransform {
    pub node: NodeId,
    pub transform: Affine2,
}

/// What is known of how a render came about. It advises and helps to debug;
/// it is no part of what was rendered.
#[derive(Debug, PartialEq, Eq)]
pub struct RenderMetadata {
    pub local_transforms: Vec<NodeTransform>,
    pub clip_targets: Vec<NodeId>,
}

/// The model of a [`RenderMetadata`].
pub struct RenderMetadataModel {
    pub local_transforms: Seq<NodeTransform>,
    pub clip_targets: Seq<NodeId>,
}

impl View for RenderMetadata {
    type V = RenderMetadataModel;

    open spec fn view(&self) -> RenderMetadataModel {
        RenderMetadataModel {
            local_transforms: self.local_transforms@,
            clip_targets: self.clip_targets@,
        }
    }
}

impl Clone for RenderMetadata {
    fn clone(&self) -> (r: RenderMetadata)
        ensures
            r@ == self@,
    {
        RenderMetadata {
            local_transforms: self.local_transforms.clone(),
            clip_targets: self.clip_targets.clone(),
        }
    }
}

impl Default for RenderMetadata {
    fn default() -> (r: RenderMetadata)
        ensures
            r@.local_transforms == Seq::<NodeTransform>::empty(),
            r@.clip_targets == Seq::<NodeId>::empty(),
    {
        RenderMetadata { local_transforms: Vec::new(), clip_targets: Vec::new() }
    }
}

/// The result of rendering a graph: the data, and the metadata beside it.
#[derive(Debug, PartialEq, Eq)]
pub struct RenderOutput {
    pub data: RenderOutputType,
    pub metadata: RenderMetadata,
}

/// The model of a [`RenderOutput`].
pub struct RenderOutputModel {
    pub data: RenderDataModel,
    pub metadata: RenderMetadataModel,
}

impl View for RenderOutput {
    type V = RenderOutputModel;

    open spec fn view(&self) -> RenderOutputModel {
        RenderOutputModel { data: self.data@, metadata: self.metadata@ }
    }
}

impl Clone for RenderOutput {
    fn clone(&self) -> (r: RenderOutput)
        ensures
            r@ == self@,
    {
        RenderOutput { data: self.data.clone(), metadata: self.metadata.clone() }
    }
}

/// A value of this type is its own model.
impl View for SurfaceFrame {
    type V = SurfaceFrame;

    open spec fn view(&self) -> SurfaceFrame {
        *self
    }
}

} // verus!
