use graph_craft::choices::{BlendMode, ReferencePoint};
use graph_craft::color::Color;
use graph_craft::descriptor::{Type, TypeIdentity};
use graph_craft::literal::{
    color_debug_string, hex_color_at, named_color, named_reference_point, number_value,
    parse_boolean, parse_color, parse_reference_point, vector_value, LiteralError,
};
use graph_craft::primitives::{FloatBits, Vector2};
use graph_craft::registry::{ValueKind, KIND_COUNT};
use graph_craft::style::Fill;
use graph_craft::value::TaggedValue;

fn read_float(text: &str) -> Option<u64> {
    text.parse::<f64>().ok().map(f64::to_bits)
}

fn write_float(bits: u64) -> String {
    f64::from_bits(bits).to_string()
}

fn parse(text: &str, kind: ValueKind) -> Option<TaggedValue> {
    TaggedValue::from_primitive_string(text, &kind.ty(), read_float)
}

fn explain(text: &str, kind: ValueKind) -> Result<TaggedValue, LiteralError> {
    TaggedValue::parse_primitive(text, &kind.ty(), read_float)
}

fn chars(text: &str) -> Vec<char> {
    text.chars().collect()
}

fn vector(x: f64, y: f64) -> TaggedValue {
    TaggedValue::DVec2(Vector2::new(FloatBits::new(x.to_bits()), FloatBits::new(y.to_bits())))
}

const RED: Color = Color { red: 255, green: 0, blue: 0, alpha: 255 };
const BLACK: Color = Color { red: 0, green: 0, blue: 0, alpha: 255 };

#[test]
fn vector_is_two_numbers_with_a_comma() {
    assert_eq!(parse("1,2", ValueKind::DVec2), Some(vector(1.0, 2.0)));
    assert_eq!(parse(" 1.5 ,\t-2e3 ", ValueKind::DVec2), Some(vector(1.5, -2000.0)));
    assert_eq!(parse("1,2,3", ValueKind::DVec2), Some(vector(1.0, 2.0)));
    assert_eq!(parse("1,2,garbage", ValueKind::DVec2), Some(vector(1.0, 2.0)));
    assert_eq!(parse("1", ValueKind::DVec2), None);
    assert_eq!(parse("", ValueKind::DVec2), None);
    assert_eq!(parse("1,", ValueKind::DVec2), None);
    assert_eq!(parse(",2", ValueKind::DVec2), None);
    assert_eq!(parse("a,b", ValueKind::DVec2), None);
    assert_eq!(parse("1;2", ValueKind::DVec2), None);
    assert_eq!(explain("1", ValueKind::DVec2), Err(LiteralError::InvalidVector));
    assert_eq!(explain("x,2", ValueKind::DVec2), Err(LiteralError::InvalidVector));
    assert_eq!(explain("1,y", ValueKind::DVec2), Err(LiteralError::InvalidVector));
}

#[test]
fn second_component_is_only_read_after_the_first() {
    let calls = std::cell::RefCell::new(Vec::<String>::new());
    let reader = |text: &str| {
        calls.borrow_mut().push(text.to_string());
        read_float(text)
    };
    let ty = ValueKind::DVec2.ty();
    assert_eq!(TaggedValue::from_primitive_string(" x , 2 ", &ty, &reader), None);
    assert_eq!(*calls.borrow(), vec![String::from("x")]);
    calls.borrow_mut().clear();
    assert_eq!(TaggedValue::from_primitive_string(" 3 , 4 ,5", &ty, &reader), Some(vector(3.0, 4.0)));
    assert_eq!(*calls.borrow(), vec![String::from("3"), String::from("4")]);
    calls.borrow_mut().clear();
    assert_eq!(TaggedValue::from_primitive_string(" 7 ", &ValueKind::F64.ty(), &reader), None);
    assert_eq!(*calls.borrow(), vec![String::from(" 7 ")]);
    calls.borrow_mut().clear();
    assert_eq!(TaggedValue::from_primitive_string("12", &ValueKind::U64.ty(), &reader), Some(TaggedValue::U64(12)));
    assert!(calls.borrow().is_empty());
}

#[test]
fn quoted_hex_digits_spell_a_color() {
    assert_eq!(parse("\"#ff0000ff\"", ValueKind::Color), Some(TaggedValue::Color(RED)));
    assert_eq!(parse("\"ff0000ff\"", ValueKind::Color), Some(TaggedValue::Color(RED)));
    assert_eq!(parse("\"#ff0000\"", ValueKind::Color), Some(TaggedValue::Color(RED)));
    assert_eq!(parse("\"#FF0000\"", ValueKind::Color), Some(TaggedValue::Color(RED)));
    assert_eq!(
        parse("\"#0a141E28\"", ValueKind::Color),
        Some(TaggedValue::Color(Color::from_rgba8(10, 20, 30, 40)))
    );
    assert_eq!(
        parse("\"\" ##000000ff \"\"", ValueKind::Color),
        Some(TaggedValue::Color(BLACK))
    );
    assert_eq!(parse("#ff0000ff", ValueKind::Color), None);
    assert_eq!(parse("\"#ff0000f\"", ValueKind::Color), None);
    assert_eq!(parse("\"#ff00\"", ValueKind::Color), None);
    assert_eq!(parse("\"#gg0000\"", ValueKind::Color), None);
    assert_eq!(parse("\"#+f+f+f\"", ValueKind::Color), None);
    assert_eq!(parse("\"\"", ValueKind::Color), None);
    assert_eq!(parse("\"", ValueKind::Color), None);
    assert_eq!(parse(" \"#ff0000\"", ValueKind::Color), None);
    assert_eq!(parse("\"#ff0000\" ", ValueKind::Color), None);
    assert_eq!(explain("\"#ff00\"", ValueKind::Color), Err(LiteralError::InvalidColorString));
    assert_eq!(explain("\"#zz0000\"", ValueKind::Color), Err(LiteralError::InvalidColorString));
}

#[test]
fn palette_names_spell_colors() {
    let palette = [
        ("BLACK", Color::from_rgba8(0, 0, 0, 255)),
        ("WHITE", Color::from_rgba8(255, 255, 255, 255)),
        ("RED", Color::from_rgba8(255, 0, 0, 255)),
        ("GREEN", Color::from_rgba8(0, 255, 0, 255)),
        ("BLUE", Color::from_rgba8(0, 0, 255, 255)),
        ("YELLOW", Color::from_rgba8(255, 255, 0, 255)),
        ("CYAN", Color::from_rgba8(0, 255, 255, 255)),
        ("MAGENTA", Color::from_rgba8(255, 0, 255, 255)),
        ("TRANSPARENT", Color::from_rgba8(0, 0, 0, 0)),
    ];
    for (name, color) in palette {
        let text = format!("Color::{}", name);
        assert_eq!(parse(&text, ValueKind::Color), Some(TaggedValue::Color(color)));
        assert_eq!(named_color(&chars(name), (0, name.len())), Some(color));
    }
    assert_eq!(parse("Color::BLACK", ValueKind::Color), Some(TaggedValue::Color(BLACK)));
    assert_eq!(parse(" Color :: BLACK ", ValueKind::Color), Some(TaggedValue::Color(BLACK)));
    assert_eq!(parse("Color::BLACK::more", ValueKind::Color), Some(TaggedValue::Color(BLACK)));
    assert_eq!(parse("Color::black", ValueKind::Color), None);
    assert_eq!(parse("Color::PINK", ValueKind::Color), None);
    assert_eq!(parse("Colour::BLACK", ValueKind::Color), None);
    assert_eq!(parse("BLACK", ValueKind::Color), None);
    assert_eq!(parse("Color:BLACK", ValueKind::Color), None);
    assert_eq!(parse("", ValueKind::Color), None);
    assert_eq!(explain("Color::PINK", ValueKind::Color), Err(LiteralError::InvalidColorConstant));
    assert_eq!(explain("Colour::BLACK", ValueKind::Color), Err(LiteralError::InvalidColor));
    assert_eq!(explain("BLACK", ValueKind::Color), Err(LiteralError::InvalidColor));
    assert_eq!(named_color(&chars("xBLACKx"), (1, 6)), Some(BLACK));
    assert_eq!(named_color(&chars("xBLACKx"), (0, 6)), None);
}

#[test]
fn fill_and_optional_color_take_what_a_color_takes() {
    assert_eq!(parse("Color::RED", ValueKind::Fill), Some(TaggedValue::Fill(Fill::Solid(RED))));
    assert_eq!(parse("\"#ff0000\"", ValueKind::Fill), Some(TaggedValue::Fill(Fill::Solid(RED))));
    assert_eq!(parse("red", ValueKind::Fill), None);
    assert_eq!(
        parse("Color::RED", ValueKind::OptionalColor),
        Some(TaggedValue::OptionalColor(Some(RED)))
    );
    assert_eq!(parse("None", ValueKind::OptionalColor), None);
    assert_eq!(explain("\"12345\"", ValueKind::Fill), Err(LiteralError::InvalidColorString));
    assert_eq!(explain("Color::X", ValueKind::OptionalColor), Err(LiteralError::InvalidColorConstant));
}

#[test]
fn named_positions_are_read() {
    let points = [
        ("None", ReferencePoint::NoPoint),
        ("TopLeft", ReferencePoint::TopLeft),
        ("TopCenter", ReferencePoint::TopCenter),
        ("TopRight", ReferencePoint::TopRight),
        ("CenterLeft", ReferencePoint::CenterLeft),
        ("Center", ReferencePoint::Center),
        ("CenterRight", ReferencePoint::CenterRight),
        ("BottomLeft", ReferencePoint::BottomLeft),
        ("BottomCenter", ReferencePoint::BottomCenter),
        ("BottomRight", ReferencePoint::BottomRight),
    ];
    for (name, point) in points {
        let text = format!("ReferencePoint::{}", name);
        assert_eq!(
            parse(&text, ValueKind::ReferencePoint),
            Some(TaggedValue::ReferencePoint(point))
        );
        assert_eq!(parse_reference_point(&chars(&text)), Ok(point));
        assert_eq!(named_reference_point(&chars(name), (0, name.len())), Some(point));
    }
    assert_eq!(
        parse(" ReferencePoint ::\tCenter ", ValueKind::ReferencePoint),
        Some(TaggedValue::ReferencePoint(ReferencePoint::Center))
    );
    assert_eq!(parse("ReferencePoint::Middle", ValueKind::ReferencePoint), None);
    assert_eq!(parse("Center", ValueKind::ReferencePoint), None);
    assert_eq!(parse("Color::BLACK", ValueKind::ReferencePoint), None);
    assert_eq!(
        explain("ReferencePoint::Middle", ValueKind::ReferencePoint),
        Err(LiteralError::InvalidReferencePointVariant)
    );
    assert_eq!(
        explain("Point::Center", ValueKind::ReferencePoint),
        Err(LiteralError::InvalidReferencePoint)
    );
    assert_eq!(
        explain("Center", ValueKind::ReferencePoint),
        Err(LiteralError::InvalidReferencePoint)
    );
}

#[test]
fn unsigned_numbers_are_read_as_the_standard_library_reads_them() {
    let cases = [
        "0", "42", "+7", "007", "", "+", "-1", "-0", " 1", "1 ", "1_000", "1.0", "0x10", "٣",
        "4294967295", "4294967296", "18446744073709551615", "18446744073709551616",
        "99999999999999999999999999", "00000000000000000000000000001", "++1", "1+",
    ];
    for text in cases {
        assert_eq!(
            parse(text, ValueKind::U64),
            text.parse::<u64>().ok().map(TaggedValue::U64),
            "as u64: {:?}",
            text
        );
        assert_eq!(
            parse(text, ValueKind::U32),
            text.parse::<u32>().ok().map(TaggedValue::U32),
            "as u32: {:?}",
            text
        );
    }
    assert_eq!(parse("42", ValueKind::U32), Some(TaggedValue::U32(42)));
    assert_eq!(parse("4294967295", ValueKind::U32), Some(TaggedValue::U32(u32::MAX)));
    assert_eq!(parse("4294967296", ValueKind::U32), None);
    assert_eq!(parse("18446744073709551615", ValueKind::U64), Some(TaggedValue::U64(u64::MAX)));
    assert_eq!(parse("18446744073709551616", ValueKind::U64), None);
    assert_eq!(explain("nope", ValueKind::U64), Err(LiteralError::InvalidNumber));
    assert_eq!(explain("-3", ValueKind::U32), Err(LiteralError::InvalidNumber));
}

#[test]
fn floating_point_numbers_go_through_the_reader() {
    assert_eq!(
        parse("1.5", ValueKind::F64),
        Some(TaggedValue::F64(FloatBits::new(1.5f64.to_bits())))
    );
    assert_eq!(
        parse("-0", ValueKind::F64),
        Some(TaggedValue::F64(FloatBits::new((-0.0f64).to_bits())))
    );
    assert_eq!(
        parse("inf", ValueKind::F64),
        Some(TaggedValue::F64(FloatBits::new(f64::INFINITY.to_bits())))
    );
    assert_eq!(parse("abc", ValueKind::F64), None);
    assert_eq!(parse(" 1.5", ValueKind::F64), None);
    assert_eq!(explain("abc", ValueKind::F64), Err(LiteralError::InvalidNumber));
    assert_eq!(
        number_value(Some(7)),
        Ok(TaggedValue::F64(FloatBits::new(7)))
    );
    assert_eq!(number_value(None), Err(LiteralError::InvalidNumber));
    assert_eq!(
        vector_value(Some(1), Some(2)),
        Ok(TaggedValue::DVec2(Vector2::new(FloatBits::new(1), FloatBits::new(2))))
    );
    assert_eq!(vector_value(Some(1), None), Err(LiteralError::InvalidVector));
    assert_eq!(vector_value(None, Some(2)), Err(LiteralError::InvalidVector));
    assert_eq!(vector_value(None, None), Err(LiteralError::InvalidVector));
}

#[test]
fn truth_values_are_true_or_false() {
    assert_eq!(parse("true", ValueKind::Bool), Some(TaggedValue::Bool(true)));
    assert_eq!(parse("false", ValueKind::Bool), Some(TaggedValue::Bool(false)));
    for text in ["True", "1", "", " true", "true ", "yes", "falsee"] {
        assert_eq!(parse(text, ValueKind::Bool), None);
        assert_eq!(parse_boolean(&chars(text)), Err(LiteralError::InvalidBoolean));
    }
    assert_eq!(explain("maybe", ValueKind::Bool), Err(LiteralError::InvalidBoolean));
}

#[test]
fn unit_takes_any_text_and_a_string_is_the_text() {
    assert_eq!(parse("", ValueKind::Unit), Some(TaggedValue::Unit));
    assert_eq!(parse("anything at all", ValueKind::Unit), Some(TaggedValue::Unit));
    assert_eq!(parse("", ValueKind::String), Some(TaggedValue::String(String::new())));
    assert_eq!(
        parse(" \"quoted\" ", ValueKind::String),
        Some(TaggedValue::String(String::from(" \"quoted\" ")))
    );
}

#[test]
fn garbage_gives_no_value_for_any_description() {
    let garbage = "\u{0}~~ not a literal ~~";
    for key in 0..KIND_COUNT {
        let kind = ValueKind::with_identity(TypeIdentity { key }).unwrap();
        let r = parse(garbage, kind);
        match kind {
            ValueKind::Unit => assert_eq!(r, Some(TaggedValue::Unit)),
            ValueKind::String => assert_eq!(r, Some(TaggedValue::String(String::from(garbage)))),
            _ => assert_eq!(r, None, "{:?}", kind),
        }
    }
    assert_eq!(
        TaggedValue::from_primitive_string(garbage, &Type::Generic(String::from("T")), read_float),
        None
    );
    let foreign = Type::concrete(TypeIdentity { key: KIND_COUNT }, "Foreign");
    assert_eq!(TaggedValue::from_primitive_string("1", &foreign, read_float), None);
    assert_eq!(
        TaggedValue::parse_primitive("1", &foreign, read_float),
        Err(LiteralError::Unsupported)
    );
}

#[test]
fn kinds_without_text_form_are_unsupported() {
    for kind in [
        ValueKind::DAffine2,
        ValueKind::VecF64,
        ValueKind::Image,
        ValueKind::BlendMode,
        ValueKind::RenderOutput,
        ValueKind::EditorApi,
    ] {
        assert_eq!(explain("1", kind), Err(LiteralError::Unsupported));
        assert_eq!(parse("1", kind), None);
    }
    assert_eq!(LiteralError::Unsupported.log_prefix(), None);
}

#[test]
fn malformed_text_has_a_line_for_the_log() {
    assert_eq!(
        LiteralError::InvalidColorString.log_prefix(),
        Some("Invalid default value color string")
    );
    assert_eq!(
        LiteralError::InvalidColorConstant.log_prefix(),
        Some("Invalid default value color constant")
    );
    assert_eq!(LiteralError::InvalidColor.log_prefix(), Some("Invalid default value color"));
    assert_eq!(
        LiteralError::InvalidReferencePointVariant.log_prefix(),
        Some("Invalid ReferencePoint default type variant")
    );
    assert_eq!(
        LiteralError::InvalidReferencePoint.log_prefix(),
        Some("Invalid ReferencePoint default type")
    );
    for e in [LiteralError::InvalidNumber, LiteralError::InvalidVector, LiteralError::InvalidBoolean] {
        assert!(e.log_prefix().is_some());
    }
}

#[test]
fn literals_are_read_through_functions_and_deferred_values() {
    let ty = Type::Fn(Box::new(Type::Future(Box::new(ValueKind::U32.ty()))));
    assert_eq!(
        TaggedValue::from_primitive_string("12", &ty, read_float),
        Some(TaggedValue::U32(12))
    );
    let ty = Type::Future(Box::new(ValueKind::DVec2.ty()));
    assert_eq!(TaggedValue::from_primitive_string("1,2", &ty, read_float), Some(vector(1.0, 2.0)));
    assert_eq!(
        TaggedValue::parse_kind("Color::BLUE", ValueKind::Color, read_float),
        Ok(TaggedValue::Color(Color::from_rgb8(0, 0, 255)))
    );
    assert_eq!(TaggedValue::parse_vector("1,2", read_float), Ok(vector(1.0, 2.0)));
}

#[test]
fn hex_colors_are_read_from_a_span() {
    let text = chars("xx0a0b0cyy");
    assert_eq!(hex_color_at(&text, (2, 8)), Some(Color::from_rgb8(10, 11, 12)));
    assert_eq!(hex_color_at(&text, (2, 7)), None);
    assert_eq!(hex_color_at(&text, (0, 6)), None);
    assert_eq!(hex_color_at(&chars("00000000"), (0, 8)), Some(Color::from_rgba8(0, 0, 0, 0)));
    assert_eq!(hex_color_at(&chars("ééé"), (0, 3)), None);
    assert_eq!(parse_color(&chars("\"#010203\"")), Ok(Color::from_rgb8(1, 2, 3)));
    assert_eq!(parse_color(&chars("\"é00000\"")), Err(LiteralError::InvalidColorString));
}

#[test]
fn values_are_written_as_primitive_text() {
    assert_eq!(TaggedValue::Unit.to_primitive_string(write_float), "()");
    assert_eq!(
        TaggedValue::String(String::from("a b")).to_primitive_string(write_float),
        "\"a b\""
    );
    assert_eq!(TaggedValue::String(String::new()).to_primitive_string(write_float), "\"\"");
    assert_eq!(TaggedValue::U32(0).to_primitive_string(write_float), "0_u32");
    assert_eq!(TaggedValue::U32(u32::MAX).to_primitive_string(write_float), "4294967295_u32");
    assert_eq!(
        TaggedValue::U64(u64::MAX).to_primitive_string(write_float),
        "18446744073709551615_u64"
    );
    assert_eq!(
        TaggedValue::F64(FloatBits::new(1.5f64.to_bits())).to_primitive_string(write_float),
        "1.5_f64"
    );
    assert_eq!(
        TaggedValue::F64(FloatBits::new(f64::NAN.to_bits())).to_primitive_string(write_float),
        "NaN_f64"
    );
    assert_eq!(TaggedValue::Bool(true).to_primitive_string(write_float), "true");
    assert_eq!(TaggedValue::Bool(false).to_primitive_string(write_float), "false");
    assert_eq!(
        TaggedValue::BlendMode(BlendMode::ColorBurn).to_primitive_string(write_float),
        "BlendMode::Color Burn"
    );
    assert_eq!(
        TaggedValue::BlendMode(BlendMode::Normal).to_primitive_string(write_float),
        "BlendMode::Normal"
    );
    assert_eq!(
        TaggedValue::Color(RED).to_primitive_string(write_float),
        "Color Color { red: 255, green: 0, blue: 0, alpha: 255 }"
    );
    assert_eq!(color_debug_string(&RED), format!("{:?}", RED));
    assert_eq!(
        TaggedValue::F64(FloatBits::new(0)).primitive_string_with("zero"),
        "zero_f64"
    );
    assert_eq!(TaggedValue::U32(3).primitive_string_with("ignored"), "3_u32");
}

#[test]
fn values_are_written_as_plain_text() {
    assert_eq!(TaggedValue::String(String::from("a b")).to_display_string(write_float), "a b");
    assert_eq!(TaggedValue::U32(12).to_display_string(write_float), "12");
    assert_eq!(TaggedValue::U64(0).to_display_string(write_float), "0");
    assert_eq!(
        TaggedValue::F64(FloatBits::new(2.25f64.to_bits())).to_display_string(write_float),
        "2.25"
    );
    assert_eq!(TaggedValue::Bool(true).to_display_string(write_float), "true");
    assert_eq!(TaggedValue::F64(FloatBits::new(0)).display_string_with("x"), "x");
}

#[test]
fn blend_modes_have_display_names() {
    assert_eq!(BlendMode::LinearDodge.display_name(), "Linear Dodge");
    assert_eq!(BlendMode::MultiplyAlpha.display_name(), "Multiply Alpha");
    assert_eq!(BlendMode::Hue.display_name(), "Hue");
    assert_eq!(BlendMode::Normal.code(), 0);
    assert_eq!(BlendMode::MultiplyAlpha.code(), 28);
    assert_eq!(ReferencePoint::BottomRight.code(), 9);
}
