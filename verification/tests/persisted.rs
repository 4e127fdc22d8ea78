use graph_craft::descriptor::TypeIdentity;
use graph_craft::primitives::{Affine2, SurfaceId, TextureHandle};
use graph_craft::registry::{ValueKind, KIND_COUNT};
use graph_craft::render::{RenderOutputType, SurfaceFrame};
use graph_craft::value::TaggedValue;
use graph_craft::primitives::FloatBits;

#[test]
fn every_written_name_is_read_back_as_its_kind() {
    let mut names: Vec<&str> = Vec::new();
    for key in 0..KIND_COUNT {
        let kind = ValueKind::with_identity(TypeIdentity { key }).unwrap();
        match kind.name_in_document() {
            Some(name) => {
                assert!(kind.is_persisted());
                assert_eq!(ValueKind::from_name_in_document(name), Some(kind));
                assert!(!names.contains(&name));
                names.push(name);
            }
            None => {
                assert!(!kind.is_persisted());
                assert_eq!(kind, ValueKind::EditorApi);
            }
        }
    }
    assert_eq!(names.len() as u64, KIND_COUNT - 1);
    assert_eq!(ValueKind::Unit.name_in_document(), Some("None"));
    assert_eq!(ValueKind::F64.name_in_document(), Some("F64"));
    assert_eq!(ValueKind::RenderOutput.name_in_document(), Some("RenderOutput"));
}

#[test]
fn old_names_are_read_and_never_written() {
    let old = [
        ("F32", ValueKind::F64),
        ("IVec2", ValueKind::DVec2),
        ("UVec2", ValueKind::DVec2),
        ("VecF32", ValueKind::VecF64),
        ("ManipulatorGroupIds", ValueKind::PointIds),
        ("GradientPositions", ValueKind::GradientStops),
        ("LineCap", ValueKind::StrokeCap),
        ("LineJoin", ValueKind::StrokeJoin),
    ];
    for (name, kind) in old {
        assert_eq!(ValueKind::from_name_in_document(name), Some(kind));
        assert_ne!(kind.name_in_document(), Some(name));
        for key in 0..KIND_COUNT {
            let other = ValueKind::with_identity(TypeIdentity { key }).unwrap();
            assert_ne!(other.name_in_document(), Some(name));
        }
    }
}

#[test]
fn unknown_names_are_no_kind() {
    for name in ["", "f64", "F64 ", " F64", "Unit", "EditorApi", "F321", "Vec", "none", "LineCaps"] {
        assert_eq!(ValueKind::from_name_in_document(name), None, "{:?}", name);
    }
}

#[test]
fn textures_and_the_environment_are_not_written() {
    assert!(!RenderOutputType::Texture(TextureHandle { id: 1 }).is_persisted());
    assert!(RenderOutputType::Image(vec![]).is_persisted());
    assert!(RenderOutputType::Svg { svg: String::new(), image_data: vec![] }.is_persisted());
    let frame = SurfaceFrame {
        surface_id: SurfaceId { id: 1 },
        width: 1,
        height: 1,
        transform: Affine2::default(),
    };
    assert!(RenderOutputType::CanvasFrame(frame).is_persisted());
    assert!(!ValueKind::EditorApi.is_persisted());
    assert!(ValueKind::SurfaceFrame.is_persisted());
}

#[test]
fn values_say_whether_they_have_a_text_form() {
    assert!(TaggedValue::Unit.is_primitive());
    assert!(!TaggedValue::Unit.is_displayable());
    assert!(TaggedValue::F64(FloatBits::new(0)).is_primitive());
    assert!(TaggedValue::F64(FloatBits::new(0)).is_displayable());
    assert!(TaggedValue::String(String::new()).is_displayable());
    assert!(!TaggedValue::VecU64(vec![]).is_primitive());
    assert!(!TaggedValue::VecU64(vec![]).is_displayable());
    assert!(!TaggedValue::DAffine2(Affine2::default()).is_primitive());
}
