use graph_craft::choices::{ArcType, BlendMode, FractalType, ReferencePoint};
use graph_craft::color::Color;
use graph_craft::descriptor::{Type, TypeDescriptor, TypeIdentity};
use graph_craft::primitives::{Affine2, FloatBits, Vector2};
use graph_craft::registry::{ValueKind, KIND_COUNT};
use graph_craft::style::{Fill, Font, Footprint, Gradient, GradientStop, GradientStops, Image};
use graph_craft::value::{TaggedValue, TaggedValueTypeError};

fn all_kinds() -> Vec<ValueKind> {
    (0..KIND_COUNT).map(|key| ValueKind::with_identity(TypeIdentity { key }).unwrap()).collect()
}

#[test]
fn default_has_the_type_it_was_asked_for() {
    let mut with_default = 0;
    for kind in all_kinds() {
        let ty = kind.ty();
        match TaggedValue::from_type(&ty) {
            Some(value) => {
                assert!(kind.is_defaultable());
                assert_eq!(value.ty(), ty);
                assert_eq!(value.kind(), kind);
                with_default += 1;
            }
            None => assert!(!kind.is_defaultable()),
        }
    }
    assert_eq!(with_default, KIND_COUNT - 3);
}

#[test]
fn default_goes_by_identity_not_by_name() {
    let ty = Type::concrete(ValueKind::U64.identity(), "some other name");
    assert_eq!(TaggedValue::from_type(&ty), Some(TaggedValue::U64(0)));
    let value = TaggedValue::from_type(&ty).unwrap();
    assert_eq!(value.ty().identity(), ty.identity());
}

#[test]
fn report_kinds_and_environment_have_no_default() {
    for kind in [ValueKind::RenderOutput, ValueKind::SurfaceFrame, ValueKind::EditorApi] {
        assert!(!kind.is_defaultable());
        assert_eq!(TaggedValue::default_of(kind), None);
        assert_eq!(TaggedValue::from_type(&kind.ty()), None);
        assert_eq!(TaggedValue::from_type_or_none(&kind.ty()), TaggedValue::Unit);
    }
}

#[test]
fn unrepresentable_descriptions_have_no_default() {
    let generic = Type::Generic(String::from("T"));
    assert_eq!(TaggedValue::from_type(&generic), None);
    assert_eq!(TaggedValue::from_type_or_none(&generic), TaggedValue::Unit);
    let unknown = Type::concrete(TypeIdentity { key: KIND_COUNT + 5 }, "Foreign");
    assert_eq!(TaggedValue::from_type(&unknown), None);
    assert_eq!(TaggedValue::from_type_or_none(&unknown), TaggedValue::Unit);
    let nameless = Type::Concrete(TypeDescriptor { id: None, name: String::from("f64") });
    assert_eq!(TaggedValue::from_type(&nameless), None);
    let wrapped_generic = Type::Fn(Box::new(Type::Generic(String::from("T"))));
    assert_eq!(TaggedValue::from_type(&wrapped_generic), None);
}

#[test]
fn default_looks_through_functions_and_deferred_values() {
    let inner = ValueKind::Bool.ty();
    let function = Type::Fn(Box::new(inner.clone()));
    let deferred = Type::Future(Box::new(function.clone()));
    let deep = Type::Fn(Box::new(Type::Future(Box::new(deferred.clone()))));
    for ty in [&inner, &function, &deferred, &deep] {
        assert_eq!(TaggedValue::from_type(ty), Some(TaggedValue::Bool(false)));
        assert_eq!(ty.identity(), Some(ValueKind::Bool.identity()));
        assert_eq!(ty.innermost(), &inner);
    }
    assert_eq!(TaggedValue::from_type_or_none(&deep), TaggedValue::Bool(false));
}

#[test]
fn default_values_are_as_documented() {
    let zero = FloatBits::new(0.0f64.to_bits());
    let one = FloatBits::new(1.0f64.to_bits());
    let half = FloatBits::new(0.5f64.to_bits());
    assert_eq!(TaggedValue::default_of(ValueKind::Unit), Some(TaggedValue::Unit));
    assert_eq!(TaggedValue::default_of(ValueKind::F64), Some(TaggedValue::F64(zero)));
    assert_eq!(TaggedValue::default_of(ValueKind::U32), Some(TaggedValue::U32(0)));
    assert_eq!(TaggedValue::default_of(ValueKind::String), Some(TaggedValue::String(String::new())));
    assert_eq!(
        TaggedValue::default_of(ValueKind::DVec2),
        Some(TaggedValue::DVec2(Vector2::new(zero, zero)))
    );
    assert_eq!(
        TaggedValue::default_of(ValueKind::DAffine2),
        Some(TaggedValue::DAffine2(Affine2 {
            x_axis: Vector2::new(one, zero),
            y_axis: Vector2::new(zero, one),
            translation: Vector2::new(zero, zero),
        }))
    );
    assert_eq!(Affine2::default().to_cols_array(), [one, zero, zero, one, zero, zero]);
    assert_eq!(TaggedValue::default_of(ValueKind::OptionalF64), Some(TaggedValue::OptionalF64(None)));
    assert_eq!(TaggedValue::default_of(ValueKind::VecU64), Some(TaggedValue::VecU64(vec![])));
    assert_eq!(
        TaggedValue::default_of(ValueKind::F64Array4),
        Some(TaggedValue::F64Array4([zero, zero, zero, zero]))
    );
    assert_eq!(
        TaggedValue::default_of(ValueKind::Color),
        Some(TaggedValue::Color(Color::from_rgba8(0, 0, 0, 0)))
    );
    assert_eq!(TaggedValue::default_of(ValueKind::Fill), Some(TaggedValue::Fill(Fill::NoFill)));
    assert_eq!(
        TaggedValue::default_of(ValueKind::Image),
        Some(TaggedValue::Image(Image { width: 0, height: 0, data: vec![] }))
    );
    let stops = GradientStops {
        stops: vec![
            GradientStop { position: zero, color: Color::from_rgb8(0, 0, 0) },
            GradientStop { position: one, color: Color::from_rgb8(255, 255, 255) },
        ],
    };
    assert_eq!(GradientStops::default(), stops);
    let gradient = Gradient::default();
    assert_eq!(gradient.stops, stops);
    assert_eq!(gradient.start, Vector2::new(zero, half));
    assert_eq!(gradient.end, Vector2::new(one, half));
    assert_eq!(gradient.transform, Affine2::default());
    assert_eq!(
        Font::default(),
        Font { family: String::from("Cabin"), style: String::from("Regular (400)") }
    );
    assert_eq!(
        Footprint::default(),
        Footprint { transform: Affine2::default(), width: 1920, height: 1080 }
    );
    assert_eq!(
        TaggedValue::default_of(ValueKind::BlendMode),
        Some(TaggedValue::BlendMode(BlendMode::Normal))
    );
    assert_eq!(
        TaggedValue::default_of(ValueKind::ReferencePoint),
        Some(TaggedValue::ReferencePoint(ReferencePoint::NoPoint))
    );
    assert_eq!(
        TaggedValue::default_of(ValueKind::ArcType),
        Some(TaggedValue::ArcType(ArcType::Open))
    );
    assert_eq!(
        TaggedValue::default_of(ValueKind::FractalType),
        Some(TaggedValue::FractalType(FractalType::NoFractal))
    );
}

#[test]
fn typed_access_gives_the_payload_or_the_type_error() {
    let value = TaggedValue::U32(5);
    assert_eq!(value.to_u32(), 5);
    assert_eq!(value.as_u32(), Ok(5));
    assert_eq!(value.as_u64(), Err(TaggedValueTypeError));
    assert_eq!(value.as_bool(), Err(TaggedValueTypeError));
    assert_eq!(value.as_string(), Err(TaggedValueTypeError));
    let text = TaggedValue::String(String::from("abc"));
    assert_eq!(text.as_string(), Ok(&String::from("abc")));
    assert_eq!(text.as_u32(), Err(TaggedValueTypeError));
    let number = TaggedValue::F64(FloatBits::new(2.0f64.to_bits()));
    assert_eq!(number.as_f64(), Ok(FloatBits::new(2.0f64.to_bits())));
    assert_eq!(TaggedValue::Bool(true).as_bool(), Ok(true));
    assert_eq!(TaggedValue::U64(9).as_u64(), Ok(9));
    let color = Color::from_rgb8(1, 2, 3);
    assert_eq!(TaggedValue::Color(color).as_color(), Ok(color));
    assert_eq!(TaggedValue::Unit.as_color(), Err(TaggedValueTypeError));
    let v = Vector2::new(FloatBits::new(1), FloatBits::new(2));
    assert_eq!(TaggedValue::DVec2(v).as_dvec2(), Ok(v));
}

#[test]
fn clone_copies_every_part() {
    let value = TaggedValue::Gradient(Gradient::default());
    assert_eq!(value.clone(), value);
    let ty = Type::Future(Box::new(ValueKind::Font.ty()));
    assert_eq!(ty.clone(), ty);
}
