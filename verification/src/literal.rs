//! Primitive text: reading a value from the text of a literal, for a given
//! description of its type, and writing a value back as text.
//!
//! Floating-point numbers are held by their bit patterns, and turning decimal
//! text into a bit pattern, or a bit pattern into text, is left to the caller:
//! the functions here take a reader, or a writer, and fix which text is handed
//! to it and what is made of its answer.

use vstd::prelude::*;
use vstd::string::*;
use crate::choices::{BlendMode, ReferencePoint};
use crate::color::Color;
use crate::descriptor::{Type, TypeModel};
use crate::primitives::{FloatBits, Vector2};
use crate::registry::ValueKind;
use crate::style::{Fill, FillModel};
use crate::text::{
    append_decimal, decimal_text, first_two_pieces, hex_pair, hex_pair_value, parse_bounded,
    parse_unsigned, span_is, span_text, split_two, to_chars, trim, trim_front, trim_front_span,
    trim_span, CharClass,
};
use crate::value::{TaggedValue, ValueModel};

verus! {

/// Why the text of a literal gave no value.
#[derive(Clone, Copy, Debug, PartialEq, Eq, Structural)]
pub enum LiteralError {
    /// The description has no type whose values can be written as text: a
    /// placeholder, a type without identity, a type that the registry does
    /// not know, or a kind without a text form.
    Unsupported,
    /// The text is not a number of the type asked for.
    InvalidNumber,
    /// The text is not two numbers with a comma between them.
    InvalidVector,
    /// The text is neither `true` nor `false`.
    InvalidBoolean,
    /// The text is quoted, but what is quoted is not six or eight
    /// hexadecimal digits.
    InvalidColorString,
    /// The text refers to a color of the palette that does not exist.
    InvalidColorConstant,
    /// The text is neither a quoted color nor a reference to the palette.
    InvalidColor,
    /// The text refers to a named position that does not exist.
    InvalidReferencePointVariant,
    /// The text is no reference to a named position.
    InvalidReferencePoint,
}

impl LiteralError {
    /// Whether the error is one of malformed text, which is worth a line in
    /// the log, and not one of a description without text form.
    pub open spec fn is_malformed(self) -> bool {
        !(self is Unsupported)
    }

    /// The beginning of the line to log for the error, before the text that
    /// was malformed; `None` where the text is not to blame.
    pub open spec fn prefix_text(self) -> Option<Seq<char>> {
        match self {
            LiteralError::Unsupported => None,
            LiteralError::InvalidNumber => Some("Invalid default value number"@),
            LiteralError::InvalidVector => Some("Invalid default value vector"@),
            LiteralError::InvalidBoolean => Some("Invalid default value boolean"@),
            LiteralError::InvalidColorString => Some("Invalid default value color string"@),
            LiteralError::InvalidColorConstant => Some("Invalid default value color constant"@),
            LiteralError::InvalidColor => Some("Invalid default value color"@),
            LiteralError::InvalidReferencePointVariant => Some(
                "Invalid ReferencePoint default type variant"@,
            ),
            LiteralError::InvalidReferencePoint => Some("Invalid ReferencePoint default type"@),
        }
    }

    /// The beginning of the line to log for the error, before the text that
    /// was malformed; `None` where the text is not to blame.
    pub fn log_prefix(&self) -> (r: Option<&'static str>)
        ensures
            r is Some <==> self.is_malformed(),
            match (r, self.prefix_text()) {
                (Some(prefix), Some(text)) => prefix@ == text,
                (None, None) => true,
                _ => false,
            },
    {
        match self {
            LiteralError::Unsupported => None,
            LiteralError::InvalidNumber => Some("Invalid default value number"),
            LiteralError::InvalidVector => Some("Invalid default value vector"),
            LiteralError::InvalidBoolean => Some("Invalid default value boolean"),
            LiteralError::InvalidColorString => Some("Invalid default value color string"),
            LiteralError::InvalidColorConstant => Some("Invalid default value color constant"),
            LiteralError::InvalidColor => Some("Invalid default value color"),
            LiteralError::InvalidReferencePointVariant => Some(
                "Invalid ReferencePoint default type variant",
            ),
            LiteralError::InvalidReferencePoint => Some("Invalid ReferencePoint default type"),
        }
    }
}

/// The span of a whole text.
pub open spec fn whole(s: Seq<char>) -> (int, int) {
    (0, s.len() as int)
}

/// The characters of a piece of a text, without the white space around them.
pub open spec fn trimmed_piece(s: Seq<char>, piece: (int, int)) -> Seq<char> {
    span_text(s, trim_span(s, CharClass::WhiteSpace, piece))
}

/// Whether a text begins and ends with a double quote.
pub open spec fn is_quoted(s: Seq<char>) -> bool {
    s.len() > 0 && s.first() == '"' && s.last() == '"'
}

/// What a quoted color holds between its quotes: the text without the white
/// space around it, without the double quotes at its ends, without the white
/// space inside them, and without the number signs in front.
pub open spec fn color_digits(s: Seq<char>) -> Seq<char> {
    let outer = trim_span(s, CharClass::WhiteSpace, whole(s));
    let unquoted = trim_span(s, CharClass::Exactly('"'), outer);
    let inner = trim_span(s, CharClass::WhiteSpace, unquoted);
    span_text(s, trim_front_span(s, CharClass::Exactly('#'), inner))
}

/// The color that six or eight hexadecimal digits spell: red, green and blue,
/// then alpha where there are eight. Six digits spell an opaque color.
pub open spec fn hex_color(digits: Seq<char>) -> Option<Color> {
    if digits.len() == 6 {
        match (
            hex_pair_value(digits[0], digits[1]),
            hex_pair_value(digits[2], digits[3]),
            hex_pair_value(digits[4], digits[5]),
        ) {
            (Some(red), Some(green), Some(blue)) => Some(Color::rgba(red, green, blue, 255)),
            _ => None,
        }
    } else if digits.len() == 8 {
        match (
            hex_pair_value(digits[0], digits[1]),
            hex_pair_value(digits[2], digits[3]),
            hex_pair_value(digits[4], digits[5]),
            hex_pair_value(digits[6], digits[7]),
        ) {
            (Some(red), Some(green), Some(blue), Some(alpha)) => Some(
                Color::rgba(red, green, blue, alpha),
            ),
            _ => None,
        }
    } else {
        None
    }
}

/// The color that a text spells: a quoted string of six or eight hexadecimal
/// digits, or `Color::` and the name of a color of the palette.
pub open spec fn color_of_text(s: Seq<char>) -> Result<Color, LiteralError> {
    if is_quoted(s) {
        match hex_color(color_digits(s)) {
            Some(color) => Ok(color),
            None => Err(LiteralError::InvalidColorString),
        }
    } else {
        match first_two_pieces(s, "::"@) {
            Some((first, second)) => if trimmed_piece(s, first) == "Color"@ {
                match Color::named(trimmed_piece(s, second)) {
                    Some(color) => Ok(color),
                    None => Err(LiteralError::InvalidColorConstant),
                }
            } else {
                Err(LiteralError::InvalidColor)
            },
            None => Err(LiteralError::InvalidColor),
        }
    }
}

/// The named position that a text spells: `ReferencePoint::` and the name of
/// the position.
pub open spec fn reference_point_of_text(s: Seq<char>) -> Result<ReferencePoint, LiteralError> {
    match first_two_pieces(s, "::"@) {
        Some((first, second)) => if trimmed_piece(s, first) == "ReferencePoint"@ {
            match ReferencePoint::named(trimmed_piece(s, second)) {
                Some(point) => Ok(point),
                None => Err(LiteralError::InvalidReferencePointVariant),
            }
        } else {
            Err(LiteralError::InvalidReferencePoint)
        },
        None => Err(LiteralError::InvalidReferencePoint),
    }
}

/// The truth value that a text spells.
pub open spec fn boolean_of_text(s: Seq<char>) -> Result<bool, LiteralError> {
    if s == "true"@ {
        Ok(true)
    } else if s == "false"@ {
        Ok(false)
    } else {
        Err(LiteralError::InvalidBoolean)
    }
}

/// What reading a literal comes to.
pub type Outcome = Result<ValueModel, LiteralError>;

/// What is decided of a literal before any floating-point number is read.
pub enum LiteralPlan {
    /// The outcome is settled.
    Settled(Outcome),
    /// The text is to be read as one number.
    Number(Seq<char>),
    /// The two texts are to be read as the components of a vector.
    Vector(Seq<char>, Seq<char>),
}

/// What a number that was read, or failed to be read, comes to.
pub open spec fn number_outcome(bits: Option<u64>) -> Outcome {
    match bits {
        Some(b) => Ok(ValueModel::F64(FloatBits { bits: b })),
        None => Err(LiteralError::InvalidNumber),
    }
}

/// What the two components of a vector that were read, or failed to be read,
/// come to.
pub open spec fn vector_outcome(x: Option<u64>, y: Option<u64>) -> Outcome {
    match (x, y) {
        (Some(a), Some(b)) => Ok(
            ValueModel::DVec2(Vector2 { x: FloatBits { bits: a }, y: FloatBits { bits: b } }),
        ),
        _ => Err(LiteralError::InvalidVector),
    }
}

/// What is decided of the text of a literal of a given kind.
pub open spec fn plan_of_kind(s: Seq<char>, kind: ValueKind) -> LiteralPlan {
    match kind {
        ValueKind::Unit => LiteralPlan::Settled(Ok(ValueModel::Unit)),
        ValueKind::String => LiteralPlan::Settled(Ok(ValueModel::String(s))),
        ValueKind::F64 => LiteralPlan::Number(s),
        ValueKind::U64 => LiteralPlan::Settled(
            match parse_unsigned(s, u64::MAX as nat) {
                Some(v) => Ok(ValueModel::U64(v as u64)),
                None => Err(LiteralError::InvalidNumber),
            },
        ),
        ValueKind::U32 => LiteralPlan::Settled(
            match parse_unsigned(s, u32::MAX as nat) {
                Some(v) => Ok(ValueModel::U32(v as u32)),
                None => Err(LiteralError::InvalidNumber),
            },
        ),
        ValueKind::DVec2 => match first_two_pieces(s, ","@) {
            Some((first, second)) => LiteralPlan::Vector(
                trimmed_piece(s, first),
                trimmed_piece(s, second),
            ),
            None => LiteralPlan::Settled(Err(LiteralError::InvalidVector)),
        },
        ValueKind::Bool => LiteralPlan::Settled(
            match boolean_of_text(s) {
                Ok(b) => Ok(ValueModel::Bool(b)),
                Err(e) => Err(e),
            },
        ),
        ValueKind::Color => LiteralPlan::Settled(
            match color_of_text(s) {
                Ok(color) => Ok(ValueModel::Color(color)),
                Err(e) => Err(e),
            },
        ),
        ValueKind::OptionalColor => LiteralPlan::Settled(
            match color_of_text(s) {
                Ok(color) => Ok(ValueModel::OptionalColor(Some(color))),
                Err(e) => Err(e),
            },
        ),
        ValueKind::Fill => LiteralPlan::Settled(
            match color_of_text(s) {
                Ok(color) => Ok(ValueModel::Fill(FillModel::Solid(color))),
                Err(e) => Err(e),
            },
        ),
        ValueKind::ReferencePoint => LiteralPlan::Settled(
            match reference_point_of_text(s) {
                Ok(point) => Ok(ValueModel::ReferencePoint(point)),
                Err(e) => Err(e),
            },
        ),
        _ => LiteralPlan::Settled(Err(LiteralError::Unsupported)),
    }
}

/// What is decided of the text of a literal for a description of its type. A
/// function and a deferred value are resolved to what they give first.
pub open spec fn plan(s: Seq<char>, ty: TypeModel) -> LiteralPlan {
    match ty.identity() {
        Some(id) => match ValueKind::of_identity(id) {
            Some(kind) => plan_of_kind(s, kind),
            None => LiteralPlan::Settled(Err(LiteralError::Unsupported)),
        },
        None => LiteralPlan::Settled(Err(LiteralError::Unsupported)),
    }
}

/// Whether the reader, handed a text, may answer with `bits`.
pub open spec fn reads<R: Fn(&str) -> Option<u64>>(
    reader: R,
    text: Seq<char>,
    bits: Option<u64>,
) -> bool {
    exists|t: &str| t@ == text && #[trigger] reader.ensures((t,), bits)
}

/// Whether `outcome` is what reading `text` as one number comes to.
pub open spec fn number_read<R: Fn(&str) -> Option<u64>>(
    reader: R,
    text: Seq<char>,
    outcome: Outcome,
) -> bool {
    exists|bits: Option<u64>| #[trigger] reads(reader, text, bits) && outcome == number_outcome(bits)
}

/// Whether `outcome` is what reading `x` and `y` as the components of a
/// vector comes to. The second component is only read where the first one
/// was.
pub open spec fn vector_read<R: Fn(&str) -> Option<u64>>(
    reader: R,
    x: Seq<char>,
    y: Seq<char>,
    outcome: Outcome,
) -> bool {
    exists|first: Option<u64>| #[trigger]
        reads(reader, x, first) && match first {
            Some(_) => exists|second: Option<u64>| #[trigger]
                reads(reader, y, second) && outcome == vector_outcome(first, second),
            None => outcome == vector_outcome(None, None),
        }
}

/// Whether `outcome` is what a plan comes to with the given reader of
/// floating-point numbers.
pub open spec fn read_by_plan<R: Fn(&str) -> Option<u64>>(
    reader: R,
    plan: LiteralPlan,
    outcome: Outcome,
) -> bool {
    match plan {
        LiteralPlan::Settled(settled) => outcome == settled,
        LiteralPlan::Number(text) => number_read(reader, text, outcome),
        LiteralPlan::Vector(x, y) => vector_read(reader, x, y, outcome),
    }
}

/// Whether `outcome` is what reading the text `s` for the description `ty`
/// comes to, with the given reader of floating-point numbers.
pub open spec fn read_as<R: Fn(&str) -> Option<u64>>(
    reader: R,
    s: Seq<char>,
    ty: TypeModel,
    outcome: Outcome,
) -> bool {
    read_by_plan(reader, plan(s, ty), outcome)
}

/// The model of what reading a literal gave.
pub open spec fn outcome_model(r: Result<TaggedValue, LiteralError>) -> Outcome {
    match r {
        Ok(value) => Ok(value@),
        Err(e) => Err(e),
    }
}

/// The value of an outcome, where it has one.
pub open spec fn outcome_value(outcome: Outcome) -> Option<ValueModel> {
    match outcome {
        Ok(value) => Some(value),
        Err(_) => None,
    }
}

/// Reads the color that the hexadecimal digits of a span spell.
pub fn hex_color_at(chars: &Vec<char>, span: (usize, usize)) -> (r: Option<Color>)
    requires
        span.0 <= span.1 <= chars.len(),
    ensures
        r == hex_color(span_text(chars@, (span.0 as int, span.1 as int))),
{
    let ghost digits = span_text(chars@, (span.0 as int, span.1 as int));
    let at: usize = span.0;
    let len: usize = span.1 - span.0;
    if len == 6 {
        assert(forall|i: int| 0 <= i < 6 ==> digits[i] == chars@[at + i]);
        match (hex_pair(chars, at), hex_pair(chars, at + 2), hex_pair(chars, at + 4)) {
            (Some(red), Some(green), Some(blue)) => Some(Color::from_rgb8(red, green, blue)),
            _ => None,
        }
    } else if len == 8 {
        assert(forall|i: int| 0 <= i < 8 ==> digits[i] == chars@[at + i]);
        match (
            hex_pair(chars, at),
            hex_pair(chars, at + 2),
            hex_pair(chars, at + 4),
            hex_pair(chars, at + 6),
        ) {
            (Some(red), Some(green), Some(blue), Some(alpha)) => Some(
                Color::from_rgba8(red, green, blue, alpha),
            ),
            _ => None,
        }
    } else {
        None
    }
}

/// Looks a span up in the palette of named colors.
pub fn named_color(chars: &Vec<char>, span: (usize, usize)) -> (r: Option<Color>)
    requires
        span.0 <= span.1 <= chars.len(),
    ensures
        r == Color::named(span_text(chars@, (span.0 as int, span.1 as int))),
{
    if span_is(chars, span, "BLACK") {
        Some(Color::from_rgb8(0, 0, 0))
    } else if span_is(chars, span, "WHITE") {
        Some(Color::from_rgb8(255, 255, 255))
    } else if span_is(chars, span, "RED") {
        Some(Color::from_rgb8(255, 0, 0))
    } else if span_is(chars, span, "GREEN") {
        Some(Color::from_rgb8(0, 255, 0))
    } else if span_is(chars, span, "BLUE") {
        Some(Color::from_rgb8(0, 0, 255))
    } else if span_is(chars, span, "YELLOW") {
        Some(Color::from_rgb8(255, 255, 0))
    } else if span_is(chars, span, "CYAN") {
        Some(Color::from_rgb8(0, 255, 255))
    } else if span_is(chars, span, "MAGENTA") {
        Some(Color::from_rgb8(255, 0, 255))
    } else if span_is(chars, span, "TRANSPARENT") {
        Some(Color::from_rgba8(0, 0, 0, 0))
    } else {
        None
    }
}

/// Looks a span up among the named positions.
pub fn named_reference_point(chars: &Vec<char>, span: (usize, usize)) -> (r: Option<
    ReferencePoint,
>)
    requires
        span.0 <= span.1 <= chars.len(),
    ensures
        r == ReferencePoint::named(span_text(chars@, (span.0 as int, span.1 as int))),
{
    if span_is(chars, span, "None") {
        Some(ReferencePoint::NoPoint)
    } else if span_is(chars, span, "TopLeft") {
        Some(ReferencePoint::TopLeft)
    } else if span_is(chars, span, "TopCenter") {
        Some(ReferencePoint::TopCenter)
    } else if span_is(chars, span, "TopRight") {
        Some(ReferencePoint::TopRight)
    } else if span_is(chars, span, "CenterLeft") {
        Some(ReferencePoint::CenterLeft)
    } else if span_is(chars, span, "Center") {
        Some(ReferencePoint::Center)
    } else if span_is(chars, span, "CenterRight") {
        Some(ReferencePoint::CenterRight)
    } else if span_is(chars, span, "BottomLeft") {
        Some(ReferencePoint::BottomLeft)
    } else if span_is(chars, span, "BottomCenter") {
        Some(ReferencePoint::BottomCenter)
    } else if span_is(chars, span, "BottomRight") {
        Some(ReferencePoint::BottomRight)
    } else {
        None
    }
}

/// Reads a color: a quoted string of hexadecimal digits, or a reference to
/// the palette.
pub fn parse_color(chars: &Vec<char>) -> (r: Result<Color, LiteralError>)
    ensures
        r == color_of_text(chars@),
{
    let len: usize = chars.len();
    if len > 0 && chars[0] == '"' && chars[len - 1] == '"' {
        let outer = trim(chars, &CharClass::WhiteSpace, (0, len));
        let unquoted = trim(chars, &CharClass::Exactly('"'), outer);
        let inner = trim(chars, &CharClass::WhiteSpace, unquoted);
        let digits = trim_front(chars, &CharClass::Exactly('#'), inner);
        match hex_color_at(chars, digits) {
            Some(color) => Ok(color),
            None => Err(LiteralError::InvalidColorString),
        }
    } else {
        proof {
            reveal_strlit("::");
        }
        match split_two(chars, "::") {
            Some((first, second)) => {
                let scope = trim(chars, &CharClass::WhiteSpace, first);
                let name = trim(chars, &CharClass::WhiteSpace, second);
                if span_is(chars, scope, "Color") {
                    match named_color(chars, name) {
                        Some(color) => Ok(color),
                        None => Err(LiteralError::InvalidColorConstant),
                    }
                } else {
                    Err(LiteralError::InvalidColor)
                }
            },
            None => Err(LiteralError::InvalidColor),
        }
    }
}

/// Reads a reference to a named position.
pub fn parse_reference_point(chars: &Vec<char>) -> (r: Result<ReferencePoint, LiteralError>)
    ensures
        r == reference_point_of_text(chars@),
{
    proof {
        reveal_strlit("::");
    }
    match split_two(chars, "::") {
        Some((first, second)) => {
            let scope = trim(chars, &CharClass::WhiteSpace, first);
            let name = trim(chars, &CharClass::WhiteSpace, second);
            if span_is(chars, scope, "ReferencePoint") {
                match named_reference_point(chars, name) {
                    Some(point) => Ok(point),
                    None => Err(LiteralError::InvalidReferencePointVariant),
                }
            } else {
                Err(LiteralError::InvalidReferencePoint)
            }
        },
        None => Err(LiteralError::InvalidReferencePoint),
    }
}

/// Reads a truth value.
pub fn parse_boolean(chars: &Vec<char>) -> (r: Result<bool, LiteralError>)
    ensures
        r == boolean_of_text(chars@),
{
    let len: usize = chars.len();
    assert(span_text(chars@, (0, len as int)) == chars@);
    if span_is(chars, (0, len), "true") {
        Ok(true)
    } else if span_is(chars, (0, len), "false") {
        Ok(false)
    } else {
        Err(LiteralError::InvalidBoolean)
    }
}

/// The value that a number makes, once a reader has answered for its text.
pub fn number_value(bits: Option<u64>) -> (r: Result<TaggedValue, LiteralError>)
    ensures
        outcome_model(r) == number_outcome(bits),
{
    match bits {
        Some(b) => Ok(TaggedValue::F64(FloatBits { bits: b })),
        None => Err(LiteralError::InvalidNumber),
    }
}

/// The value that a vector makes, once a reader has answered for the texts of
/// its components.
pub fn vector_value(x: Option<u64>, y: Option<u64>) -> (r: Result<TaggedValue, LiteralError>)
    ensures
        outcome_model(r) == vector_outcome(x, y),
{
    match (x, y) {
        (Some(a), Some(b)) => Ok(
            TaggedValue::DVec2(Vector2 { x: FloatBits { bits: a }, y: FloatBits { bits: b } }),
        ),
        _ => Err(LiteralError::InvalidVector),
    }
}

impl TaggedValue {
    /// Reads the value that `string` spells for a kind, or says why there is
    /// none.
    pub fn parse_kind<R: Fn(&str) -> Option<u64>>(string: &str, kind: ValueKind, reader: R) -> (r:
        Result<TaggedValue, LiteralError>)
        requires
            forall|t: &str| reader.requires((t,)),
        ensures
            read_by_plan(reader, plan_of_kind(string@, kind), outcome_model(r)),
    {
        match kind {
            ValueKind::Unit => Ok(TaggedValue::Unit),
            ValueKind::String => Ok(TaggedValue::String(String::from_str(string))),
            ValueKind::F64 => {
                let bits = reader(string);
                let r = number_value(bits);
                assert(reads(reader, string@, bits));
                assert(number_read(reader, string@, outcome_model(r)));
                r
            },
            ValueKind::U64 => {
                let chars = to_chars(string);
                match parse_bounded(&chars, u64::MAX) {
                    Some(v) => Ok(TaggedValue::U64(v)),
                    None => Err(LiteralError::InvalidNumber),
                }
            },
            ValueKind::U32 => {
                let chars = to_chars(string);
                match parse_bounded(&chars, 0xFFFF_FFFF) {
                    Some(v) => Ok(TaggedValue::U32(v as u32)),
                    None => Err(LiteralError::InvalidNumber),
                }
            },
            ValueKind::DVec2 => TaggedValue::parse_vector(string, reader),
            ValueKind::Bool => {
                let chars = to_chars(string);
                match parse_boolean(&chars) {
                    Ok(b) => Ok(TaggedValue::Bool(b)),
                    Err(e) => Err(e),
                }
            },
            ValueKind::Color => {
                let chars = to_chars(string);
                match parse_color(&chars) {
                    Ok(color) => Ok(TaggedValue::Color(color)),
                    Err(e) => Err(e),
                }
            },
            ValueKind::OptionalColor => {
                let chars = to_chars(string);
                match parse_color(&chars) {
                    Ok(color) => Ok(TaggedValue::OptionalColor(Some(color))),
                    Err(e) => Err(e),
                }
            },
            ValueKind::Fill => {
                let chars = to_chars(string);
                match parse_color(&chars) {
                    Ok(color) => Ok(TaggedValue::Fill(Fill::solid(color))),
                    Err(e) => Err(e),
                }
            },
            ValueKind::ReferencePoint => {
                let chars = to_chars(string);
                match parse_reference_point(&chars) {
                    Ok(point) => Ok(TaggedValue::ReferencePoint(point)),
                    Err(e) => Err(e),
                }
            },
            _ => Err(LiteralError::Unsupported),
        }
    }

    /// Reads a vector: two numbers with a comma between them, each without
    /// the white space around it. What follows a second comma is not looked
    /// at.
    pub fn parse_vector<R: Fn(&str) -> Option<u64>>(string: &str, reader: R) -> (r: Result<
        TaggedValue,
        LiteralError,
    >)
        requires
            forall|t: &str| reader.requires((t,)),
        ensures
            read_by_plan(reader, plan_of_kind(string@, ValueKind::DVec2), outcome_model(r)),
    {
        let chars = to_chars(string);
        proof {
            reveal_strlit(",");
        }
        match split_two(&chars, ",") {
            Some((first, second)) => {
                let ghost x_piece = trimmed_piece(string@, (first.0 as int, first.1 as int));
                let ghost y_piece = trimmed_piece(string@, (second.0 as int, second.1 as int));
                let x_span = trim(&chars, &CharClass::WhiteSpace, first);
                let y_span = trim(&chars, &CharClass::WhiteSpace, second);
                let x_text = string.substring_char(x_span.0, x_span.1);
                let x = reader(x_text);
                assert(x_text@ == x_piece);
                assert(reads(reader, x_piece, x));
                match x {
                    Some(_) => {
                        let y_text = string.substring_char(y_span.0, y_span.1);
                        let y = reader(y_text);
                        assert(y_text@ == y_piece);
                        assert(reads(reader, y_piece, y));
                        let r = vector_value(x, y);
                        assert(vector_read(reader, x_piece, y_piece, outcome_model(r)));
                        r
                    },
                    None => {
                        let r = vector_value(None, None);
                        assert(vector_read(reader, x_piece, y_piece, outcome_model(r)));
                        r
                    },
                }
            },
            None => Err(LiteralError::InvalidVector),
        }
    }

    /// Reads the value that `string` spells for the description `ty`, or says
    /// why there is none.
    ///
    /// Numbers are read as the standard library reads them; a vector is two
    /// numbers with a comma between them; a truth value is `true` or
    /// `false`; a color is a quoted string of six or eight hexadecimal digits
    /// or a reference to the palette; a fill takes what a color takes, and is
    /// solid; a named position is a reference to one. The unit type takes any
    /// text, and a string is the text itself.
    pub fn parse_primitive<R: Fn(&str) -> Option<u64>>(string: &str, ty: &Type, reader: R) -> (r:
        Result<TaggedValue, LiteralError>)
        requires
            forall|t: &str| reader.requires((t,)),
        ensures
            read_as(reader, string@, ty@, outcome_model(r)),
    {
        match ty.identity() {
            Some(id) => match ValueKind::with_identity(id) {
                Some(kind) => TaggedValue::parse_kind(string, kind, reader),
                None => Err(LiteralError::Unsupported),
            },
            None => Err(LiteralError::Unsupported),
        }
    }

    /// Reads the value that `string` spells for the description `ty`. Text
    /// that spells none gives `None`, never a failure.
    pub fn from_primitive_string<R: Fn(&str) -> Option<u64>>(
        string: &str,
        ty: &Type,
        reader: R,
    ) -> (r: Option<TaggedValue>)
        requires
            forall|t: &str| reader.requires((t,)),
        ensures
            exists|outcome: Outcome| #[trigger]
                read_as(reader, string@, ty@, outcome) && match (r, outcome_value(outcome)) {
                    (Some(value), Some(model)) => value@ == model,
                    (None, None) => true,
                    _ => false,
                },
    {
        let read = TaggedValue::parse_primitive(string, ty, reader);
        proof {
            assert(read_as(reader, string@, ty@, outcome_model(read)));
        }
        match read {
            Ok(value) => Some(value),
            Err(_) => None,
        }
    }
}

/// Whether the writer, handed a bit pattern, may answer with `text`.
pub open spec fn writes<W: Fn(u64) -> String>(writer: W, bits: u64, text: Seq<char>) -> bool {
    exists|number: String| number@ == text && #[trigger] writer.ensures((bits,), number)
}

/// Whether a value can be written as primitive text.
pub open spec fn has_primitive_text(v: ValueModel) -> bool {
    v is Unit || v is String || v is U32 || v is U64 || v is F64 || v is Bool || v is BlendMode
        || v is Color
}

/// A color as it is written for debugging.
pub open spec fn color_debug_text(c: Color) -> Seq<char> {
    "Color { red: "@ + decimal_text(c.red as nat) + ", green: "@ + decimal_text(c.green as nat)
        + ", blue: "@ + decimal_text(c.blue as nat) + ", alpha: "@ + decimal_text(c.alpha as nat)
        + " }"@
}

/// The primitive text of a value. `number` is the text of the floating-point
/// number, which only a value of that kind uses. A number carries the name of
/// its type after it, a string stands between double quotes, and a color is
/// written as for debugging.
pub open spec fn primitive_text(v: ValueModel, number: Seq<char>) -> Seq<char> {
    match v {
        ValueModel::Unit => "()"@,
        ValueModel::String(x) => "\""@ + x + "\""@,
        ValueModel::U32(x) => decimal_text(x as nat) + "_u32"@,
        ValueModel::U64(x) => decimal_text(x as nat) + "_u64"@,
        ValueModel::F64(_) => number + "_f64"@,
        ValueModel::Bool(b) => if b {
            "true"@
        } else {
            "false"@
        },
        ValueModel::BlendMode(mode) => "BlendMode::"@ + mode.display_text(),
        ValueModel::Color(c) => "Color "@ + color_debug_text(c),
        _ => Seq::empty(),
    }
}

/// Whether a value can be written as plain text.
pub open spec fn has_display_text(v: ValueModel) -> bool {
    v is String || v is U32 || v is U64 || v is F64 || v is Bool
}

/// The plain text of a value: the string itself, or the number, or the truth
/// value. `number` is the text of the floating-point number, which only a
/// value of that kind uses.
pub open spec fn display_text(v: ValueModel, number: Seq<char>) -> Seq<char> {
    match v {
        ValueModel::String(x) => x,
        ValueModel::U32(x) => decimal_text(x as nat),
        ValueModel::U64(x) => decimal_text(x as nat),
        ValueModel::F64(_) => number,
        ValueModel::Bool(b) => if b {
            "true"@
        } else {
            "false"@
        },
        _ => Seq::empty(),
    }
}

/// Writes a color as it is written for debugging.
pub fn color_debug_string(c: &Color) -> (r: String)
    ensures
        r@ == color_debug_text(*c),
{
    let mut out = String::from_str("Color { red: ");
    append_decimal(&mut out, c.red as u64);
    out.append(", green: ");
    append_decimal(&mut out, c.green as u64);
    out.append(", blue: ");
    append_decimal(&mut out, c.blue as u64);
    out.append(", alpha: ");
    append_decimal(&mut out, c.alpha as u64);
    out.append(" }");
    assert(out@ =~= color_debug_text(*c));
    out
}

impl TaggedValue {
    /// Whether the value can be written as primitive text.
    pub fn is_primitive(&self) -> (r: bool)
        ensures
            r == has_primitive_text(self@),
    {
        match self {
            TaggedValue::Unit
            | TaggedValue::String(_)
            | TaggedValue::U32(_)
            | TaggedValue::U64(_)
            | TaggedValue::F64(_)
            | TaggedValue::Bool(_)
            | TaggedValue::BlendMode(_)
            | TaggedValue::Color(_) => true,
            _ => false,
        }
    }

    /// Whether the value can be written as plain text.
    pub fn is_displayable(&self) -> (r: bool)
        ensures
            r == has_display_text(self@),
    {
        match self {
            TaggedValue::String(_)
            | TaggedValue::U32(_)
            | TaggedValue::U64(_)
            | TaggedValue::F64(_)
            | TaggedValue::Bool(_) => true,
            _ => false,
        }
    }

    /// Writes the value as primitive text, given the text of its number where
    /// it is a floating-point number.
    pub fn primitive_string_with(&self, number: &str) -> (r: String)
        requires
            has_primitive_text(self@),
        ensures
            r@ == primitive_text(self@, number@),
    {
        match self {
            TaggedValue::Unit => String::from_str("()"),
            TaggedValue::String(x) => {
                let mut out = String::from_str("\"");
                out.append(x.as_str());
                out.append("\"");
                assert(out@ =~= primitive_text(self@, number@));
                out
            },
            TaggedValue::U32(x) => {
                let mut out = String::new();
                append_decimal(&mut out, *x as u64);
                out.append("_u32");
                assert(out@ =~= primitive_text(self@, number@));
                out
            },
            TaggedValue::U64(x) => {
                let mut out = String::new();
                append_decimal(&mut out, *x);
                out.append("_u64");
                assert(out@ =~= primitive_text(self@, number@));
                out
            },
            TaggedValue::F64(_) => {
                let mut out = String::from_str(number);
                out.append("_f64");
                out
            },
            TaggedValue::Bool(b) => if *b {
                String::from_str("true")
            } else {
                String::from_str("false")
            },
            TaggedValue::BlendMode(mode) => {
                let mut out = String::from_str("BlendMode::");
                out.append(mode.display_name());
                out
            },
            TaggedValue::Color(c) => {
                let mut out = String::from_str("Color ");
                let text = color_debug_string(c);
                out.append(text.as_str());
                out
            },
            _ => String::new(),
        }
    }

    /// Writes the value as primitive text. The writer is asked for the text
    /// of a floating-point number, and only where the value is one.
    pub fn to_primitive_string<W: Fn(u64) -> String>(&self, writer: W) -> (r: String)
        requires
            has_primitive_text(self@),
            forall|bits: u64| writer.requires((bits,)),
        ensures
            self@ matches ValueModel::F64(x) ==> exists|number: Seq<char>| #[trigger]
                writes(writer, x.bits, number) && r@ == primitive_text(self@, number),
            !(self@ is F64) ==> r@ == primitive_text(self@, Seq::empty()),
    {
        match self {
            TaggedValue::F64(x) => {
                let number = writer(x.bits);
                let r = self.primitive_string_with(number.as_str());
                assert(writes(writer, x.bits, number@));
                assert(writes(writer, self@->F64_0.bits, number@));
                r
            },
            _ => {
                proof {
                    reveal_strlit("");
                    assert(""@ =~= Seq::<char>::empty());
                }
                self.primitive_string_with("")
            },
        }
    }

    /// Writes the value as plain text, given the text of its number where it
    /// is a floating-point number.
    pub fn display_string_with(&self, number: &str) -> (r: String)
        requires
            has_display_text(self@),
        ensures
            r@ == display_text(self@, number@),
    {
        match self {
            TaggedValue::String(x) => x.clone(),
            TaggedValue::U32(x) => {
                let mut out = String::new();
                append_decimal(&mut out, *x as u64);
                assert(out@ =~= display_text(self@, number@));
                out
            },
            TaggedValue::U64(x) => {
                let mut out = String::new();
                append_decimal(&mut out, *x);
                assert(out@ =~= display_text(self@, number@));
                out
            },
            TaggedValue::F64(_) => String::from_str(number),
            TaggedValue::Bool(b) => if *b {
                String::from_str("true")
            } else {
                String::from_str("false")
            },
            _ => String::new(),
        }
    }

    /// Writes the value as plain text. The writer is asked for the text of a
    /// floating-point number, and only where the value is one.
    pub fn to_display_string<W: Fn(u64) -> String>(&self, writer: W) -> (r: String)
        requires
            has_display_text(self@),
            forall|bits: u64| writer.requires((bits,)),
        ensures
            self@ matches ValueModel::F64(x) ==> exists|number: Seq<char>| #[trigger]
                writes(writer, x.bits, number) && r@ == display_text(self@, number),
            !(self@ is F64) ==> r@ == display_text(self@, Seq::empty()),
    {
        match self {
            TaggedValue::F64(x) => {
                let number = writer(x.bits);
                let r = self.display_string_with(number.as_str());
                assert(writes(writer, x.bits, number@));
                assert(writes(writer, self@->F64_0.bits, number@));
                r
            },
            _ => {
                proof {
                    reveal_strlit("");
                    assert(""@ =~= Seq::<char>::empty());
                }
                self.display_string_with("")
            },
        }
    }
}

} // verus!
