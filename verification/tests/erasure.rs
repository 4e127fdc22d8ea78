use graph_craft::choices::{ArcType, BlendMode, FractalType, ReferencePoint, StrokeCap};
use graph_craft::color::Color;
use graph_craft::descriptor::TypeIdentity;
use graph_craft::erased::{mismatch_message, ErasedValue};
use graph_craft::font_cache::FontCache;
use graph_craft::graphics::{Artboard, ManipulatorGroup, RasterInstance, Subpath};
use std::sync::Arc;
use graph_craft::primitives::{
    Affine2, EnvironmentHandle, FloatBits, NodeId, PointId, SurfaceId, TextureHandle, Vector2,
};
use graph_craft::registry::{ValueKind, KIND_COUNT};
use graph_craft::render::{
    EmbeddedImage, NodeTransform, RenderMetadata, RenderOutput, RenderOutputType, SurfaceFrame,
};
use graph_craft::style::{Fill, Font, Footprint, Gradient, GradientStop, GradientStops, Image};
use graph_craft::value::TaggedValue;

fn float(x: f64) -> FloatBits {
    FloatBits::new(x.to_bits())
}

fn vector(x: f64, y: f64) -> Vector2 {
    Vector2::new(float(x), float(y))
}

fn frame() -> SurfaceFrame {
    SurfaceFrame {
        surface_id: SurfaceId { id: 7 },
        width: 640,
        height: 480,
        transform: Affine2::default(),
    }
}

fn render_output() -> RenderOutput {
    RenderOutput {
        data: RenderOutputType::Svg {
            svg: String::from("<svg/>"),
            image_data: vec![EmbeddedImage {
                id: 11,
                image: Image { width: 1, height: 1, data: vec![Color::from_rgb8(1, 2, 3)] },
            }],
        },
        metadata: RenderMetadata {
            local_transforms: vec![NodeTransform {
                node: NodeId { id: 3 },
                transform: Affine2::default(),
            }],
            clip_targets: vec![NodeId { id: 4 }],
        },
    }
}

/// One value of every kind that can be recovered, none of them a default.
fn samples() -> Vec<TaggedValue> {
    vec![
        TaggedValue::Unit,
        TaggedValue::F64(float(1.5)),
        TaggedValue::F64(float(f64::NAN)),
        TaggedValue::U32(17),
        TaggedValue::U64(u64::MAX),
        TaggedValue::Bool(true),
        TaggedValue::String(String::from("héllo")),
        TaggedValue::DVec2(vector(1.0, -2.0)),
        TaggedValue::DAffine2(Affine2 {
            x_axis: vector(2.0, 0.0),
            y_axis: vector(0.0, 3.0),
            translation: vector(4.0, 5.0),
        }),
        TaggedValue::OptionalF64(Some(float(0.25))),
        TaggedValue::OptionalF64(None),
        TaggedValue::OptionalDVec2(Some(vector(1.0, 1.0))),
        TaggedValue::VecF64(vec![float(1.0), float(2.0)]),
        TaggedValue::VecU64(vec![1, 2, 3]),
        TaggedValue::VecDVec2(vec![vector(0.0, 1.0)]),
        TaggedValue::F64Array4([float(1.0), float(2.0), float(3.0), float(4.0)]),
        TaggedValue::NodePath(vec![NodeId { id: 1 }, NodeId { id: 2 }]),
        TaggedValue::PointIds(vec![PointId { id: 9 }]),
        TaggedValue::RasterData(vec![RasterInstance {
            image: Image { width: 1, height: 1, data: vec![Color::from_rgb8(3, 2, 1)] },
            transform: Affine2::default(),
            source_node_id: Some(NodeId { id: 12 }),
        }]),
        TaggedValue::ArtboardGroup(vec![Artboard::default(), Artboard::default()]),
        TaggedValue::Artboard(Artboard {
            label: String::from("Cover"),
            x: -10,
            y: 20,
            width: 300,
            height: 400,
            background: Color::from_rgb8(1, 2, 3),
            clip: true,
        }),
        TaggedValue::Image(Image { width: 2, height: 1, data: vec![Color::from_rgb8(9, 8, 7); 2] }),
        TaggedValue::Subpaths(vec![Subpath {
            manipulator_groups: vec![ManipulatorGroup {
                anchor: vector(1.0, 2.0),
                in_handle: None,
                out_handle: Some(vector(3.0, 4.0)),
                id: PointId { id: 5 },
            }],
            closed: true,
        }]),
        TaggedValue::FontCache(Arc::new(
            FontCache::new().with(
                Font { family: String::from("Inter"), style: String::from("Bold (700)") },
                vec![1, 2, 3],
            ),
        )),
        TaggedValue::Color(Color::from_rgba8(10, 20, 30, 40)),
        TaggedValue::OptionalColor(Some(Color::from_rgb8(1, 1, 1))),
        TaggedValue::Palette(vec![Color::from_rgb8(0, 0, 0), Color::from_rgb8(255, 255, 255)]),
        TaggedValue::Fill(Fill::solid(Color::from_rgb8(255, 0, 0))),
        TaggedValue::Fill(Fill::Gradient(Gradient::default())),
        TaggedValue::Gradient(Gradient::default()),
        TaggedValue::GradientStops(GradientStops {
            stops: vec![GradientStop { position: float(0.5), color: Color::from_rgb8(5, 5, 5) }],
        }),
        TaggedValue::Font(Font { family: String::from("Inter"), style: String::from("Bold (700)") }),
        TaggedValue::Footprint(Footprint { transform: Affine2::default(), width: 10, height: 20 }),
        TaggedValue::BlendMode(BlendMode::Multiply),
        TaggedValue::ReferencePoint(ReferencePoint::Center),
        TaggedValue::ArcType(ArcType::PieSlice),
        TaggedValue::StrokeCap(StrokeCap::Round),
        TaggedValue::FractalType(FractalType::Ridged),
        TaggedValue::RenderOutput(render_output()),
        TaggedValue::RenderOutput(RenderOutput {
            data: RenderOutputType::Texture(TextureHandle { id: 5 }),
            metadata: RenderMetadata::default(),
        }),
        TaggedValue::SurfaceFrame(frame()),
    ]
}

#[test]
fn erase_then_recover_owned_gives_the_value_again() {
    for value in samples() {
        let expected = value.clone();
        let erased = value.to_dynany();
        assert_eq!(TaggedValue::try_from_any(erased), Ok(expected));
    }
}

#[test]
fn erase_then_recover_borrowed_gives_the_value_again() {
    for value in samples() {
        let expected = value.clone();
        let shared = value.to_any();
        let other_holder = shared.clone();
        assert_eq!(TaggedValue::try_from_std_any_ref(&shared), Ok(expected.clone()));
        assert_eq!(TaggedValue::try_from_std_any_ref(&other_holder), Ok(expected));
    }
}

#[test]
fn erased_container_keeps_identity_and_name() {
    let erased = TaggedValue::U32(1).to_dynany();
    assert_eq!(erased.identity(), ValueKind::U32.identity());
    assert_eq!(erased.name(), "u32");
    assert!(erased.is_recoverable());
    let unit = TaggedValue::Unit.to_dynany();
    assert_eq!(unit.identity(), ValueKind::Unit.identity());
    assert_eq!(unit.name(), "()");
}

#[test]
fn unit_is_matched_first() {
    assert_eq!(ValueKind::with_identity(TypeIdentity { key: 0 }), Some(ValueKind::Unit));
    assert_eq!(ValueKind::Unit.identity(), TypeIdentity { key: 0 });
}

#[test]
fn recovering_a_foreign_type_names_it() {
    let foreign = ErasedValue::foreign(TypeIdentity { key: 1_000_000 }, "my_crate::Foreign")
        .expect("the identity is not of the registry");
    assert!(!foreign.is_recoverable());
    let error = TaggedValue::try_from_std_any_ref(&foreign).unwrap_err();
    assert_eq!(error, "Cannot convert \"my_crate::Foreign\" to TaggedValue");
    assert!(error.contains("my_crate::Foreign"));
    let error = TaggedValue::try_from_any(foreign).unwrap_err();
    assert_eq!(error, "Cannot convert \"my_crate::Foreign\" to TaggedValue");
}

#[test]
fn mismatch_message_quotes_and_escapes_the_name() {
    assert_eq!(mismatch_message("Foreign"), "Cannot convert \"Foreign\" to TaggedValue");
    assert_eq!(mismatch_message("a\"b\n"), "Cannot convert \"a\\\"b\\n\" to TaggedValue");
    assert_eq!(mismatch_message(""), "Cannot convert \"\" to TaggedValue");
}

#[test]
fn foreign_container_needs_a_foreign_identity() {
    assert!(ErasedValue::foreign(ValueKind::F64.identity(), "f64").is_none());
    assert!(ErasedValue::foreign(TypeIdentity { key: KIND_COUNT - 1 }, "x").is_none());
    assert!(ErasedValue::foreign(TypeIdentity { key: KIND_COUNT }, "x").is_some());
    assert!(ErasedValue::foreign(TypeIdentity { key: u64::MAX }, "x").is_some());
}

#[test]
fn environment_handle_is_erased_but_not_recovered() {
    let value = TaggedValue::EditorApi(EnvironmentHandle { id: 1 });
    let erased = value.to_dynany();
    assert_eq!(erased.identity(), ValueKind::EditorApi.identity());
    assert!(!erased.is_recoverable());
    assert_eq!(
        TaggedValue::try_from_std_any_ref(&erased),
        Err(String::from("Cannot convert \"EditorApi\" to TaggedValue"))
    );
    assert_eq!(
        TaggedValue::try_from_any(erased),
        Err(String::from("Cannot convert \"EditorApi\" to TaggedValue"))
    );
}

#[test]
fn registry_gives_every_kind_one_identity() {
    let mut seen: Vec<ValueKind> = Vec::new();
    for key in 0..KIND_COUNT {
        let kind = ValueKind::with_identity(TypeIdentity { key }).expect("a kind for each key");
        assert_eq!(kind.identity(), TypeIdentity { key });
        assert!(!seen.contains(&kind));
        seen.push(kind);
    }
    assert_eq!(seen.len() as u64, KIND_COUNT);
    assert_eq!(ValueKind::with_identity(TypeIdentity { key: KIND_COUNT }), None);
    assert_eq!(seen[0], ValueKind::Unit);
    assert_eq!(seen[seen.len() - 3], ValueKind::RenderOutput);
    assert_eq!(seen[seen.len() - 2], ValueKind::SurfaceFrame);
    assert_eq!(seen[seen.len() - 1], ValueKind::EditorApi);
}

#[test]
fn kind_and_type_of_a_value_agree_with_the_registry() {
    for value in samples() {
        let kind = value.kind();
        assert_eq!(value.ty(), kind.ty());
        assert_eq!(value.ty().identity(), Some(kind.identity()));
    }
    assert_eq!(TaggedValue::F64(float(0.0)).kind(), ValueKind::F64);
    assert_eq!(TaggedValue::U64(0).kind(), ValueKind::U64);
    assert_eq!(ValueKind::F64.name_text(), "f64");
    assert_eq!(ValueKind::F64Array4.name_text(), "[f64; 4]");
    assert!(ValueKind::SurfaceFrame.is_recoverable());
    assert!(!ValueKind::EditorApi.is_recoverable());
}
