use graph_craft::arc_shape::{Arc, ArcGizmoHandler, MouseCursorIcon, SweepAngleGizmo, SweepAngleGizmoState};
use graph_craft::choices::ArcType;
use graph_craft::frame::{byte_count, FrameBufferError, FrameBufferRef};
use graph_craft::present::{after_render, RedrawAction, SurfaceError, SurfaceSize};
use graph_craft::primitives::{FloatBits, NodeId};
use graph_craft::text::{
    append_decimal, decimal_string, find, hex_digit, hex_pair, is_white_space, parse_bounded,
    span_is, split_two, to_chars, trim, trim_front, CharClass,
};
use graph_craft::value::TaggedValue;

#[test]
fn frame_of_four_by_four_takes_sixty_four_bytes() {
    let buffer = [0u8; 64];
    let frame = FrameBufferRef::new(&buffer, 4, 4).expect("64 bytes are a frame of 4 by 4");
    assert_eq!(frame.width(), 4);
    assert_eq!(frame.height(), 4);
    assert_eq!(frame.buffer(), &buffer[..]);
    assert_eq!(frame.buffer().len(), 64);
    assert_eq!(frame.debug_string(), "FrameBuffer { width: 4, height: 4, len: 64 }");
}

#[test]
fn frame_of_four_by_four_refuses_sixty_three_bytes() {
    let buffer = [0u8; 63];
    let error = FrameBufferRef::new(&buffer, 4, 4).err().expect("63 bytes are no frame");
    assert_eq!(
        error,
        FrameBufferError::InvalidSize { buffer_size: 63, expected_size: 64, width: 4, height: 4 }
    );
    assert_eq!(
        error.message(),
        "Invalid buffer size 63, expected 64 for width 4 multiplied with height 4 multiplied by 4 channels"
    );
}

#[test]
fn frame_sizes_are_checked_exactly() {
    assert_eq!(FrameBufferRef::validate_size(0, 0, 0), Ok(()));
    assert_eq!(FrameBufferRef::validate_size(0, 0, 7), Ok(()));
    assert_eq!(FrameBufferRef::validate_size(12, 3, 1), Ok(()));
    assert_eq!(
        FrameBufferRef::validate_size(65, 4, 4),
        Err(FrameBufferError::InvalidSize { buffer_size: 65, expected_size: 64, width: 4, height: 4 })
    );
    assert_eq!(
        FrameBufferRef::validate_size(1, 0, 5),
        Err(FrameBufferError::InvalidSize { buffer_size: 1, expected_size: 0, width: 0, height: 5 })
    );
    let empty: [u8; 0] = [];
    assert!(FrameBufferRef::new(&empty, 0, 9).is_ok());
    assert!(FrameBufferRef::new(&empty, 1, 1).is_err());
}

#[test]
fn byte_count_tells_when_a_size_cannot_be_held() {
    assert_eq!(byte_count(4, 4), Some(64));
    assert_eq!(byte_count(0, usize::MAX), Some(0));
    assert_eq!(byte_count(1920, 1080), Some(1920 * 1080 * 4));
    assert_eq!(byte_count(usize::MAX, 1), None);
    assert_eq!(byte_count(usize::MAX / 4, 1), Some(usize::MAX / 4 * 4));
    assert_eq!(byte_count(usize::MAX / 4 + 1, 1), None);
    assert_eq!(byte_count(usize::MAX, usize::MAX), None);
}

#[test]
fn only_running_out_of_memory_ends_the_loop() {
    assert_eq!(after_render(Ok(())), RedrawAction::Proceed);
    assert_eq!(after_render(Err(SurfaceError::Lost)), RedrawAction::WarnAndRetry);
    assert_eq!(after_render(Err(SurfaceError::OutOfMemory)), RedrawAction::Exit);
    assert_eq!(after_render(Err(SurfaceError::Timeout)), RedrawAction::LogAndRetry);
    assert_eq!(after_render(Err(SurfaceError::Outdated)), RedrawAction::LogAndRetry);
    assert_eq!(after_render(Err(SurfaceError::Other)), RedrawAction::LogAndRetry);
}

#[test]
fn surface_is_set_up_again_only_for_a_new_size_with_pixels() {
    let mut size = SurfaceSize { width: 10, height: 20 };
    assert!(!size.resize(10, 20));
    assert!(!size.resize(0, 20));
    assert!(!size.resize(30, 0));
    assert_eq!(size, SurfaceSize { width: 10, height: 20 });
    assert!(size.resize(10, 21));
    assert_eq!(size, SurfaceSize { width: 10, height: 21 });
    assert!(size.resize(11, 21));
    assert_eq!(size, SurfaceSize { width: 11, height: 21 });
}

#[test]
fn new_arc_node_starts_with_its_inputs() {
    let inputs = Arc::create_node(ArcType::Closed);
    assert_eq!(
        inputs,
        vec![
            None,
            Some(TaggedValue::F64(FloatBits::new(0.5f64.to_bits()))),
            Some(TaggedValue::F64(FloatBits::new(0.0f64.to_bits()))),
            Some(TaggedValue::F64(FloatBits::new(270.0f64.to_bits()))),
            Some(TaggedValue::ArcType(ArcType::Closed)),
        ]
    );
    assert_eq!(Arc::create_node(ArcType::Open)[4], Some(TaggedValue::ArcType(ArcType::Open)));
}

#[test]
fn click_on_a_hovered_handle_begins_to_drag() {
    let mut handler = ArcGizmoHandler::new();
    assert_eq!(handler, ArcGizmoHandler::default());
    assert!(!handler.is_any_gizmo_hovered());
    assert!(!handler.is_dragging());
    assert_eq!(handler.mouse_cursor_icon(), None);
    handler.handle_click();
    assert!(!handler.is_dragging());
    handler.hover(NodeId { id: 1 });
    assert!(handler.is_any_gizmo_hovered());
    assert_eq!(handler.mouse_cursor_icon(), Some(MouseCursorIcon::Default));
    handler.handle_click();
    assert!(!handler.is_any_gizmo_hovered());
    assert!(handler.is_dragging());
    assert_eq!(handler.mouse_cursor_icon(), Some(MouseCursorIcon::Default));
    handler.hover(NodeId { id: 2 });
    assert!(handler.is_dragging());
    handler.handle_click();
    assert!(handler.is_dragging());
    handler.cleanup();
    assert_eq!(handler, ArcGizmoHandler::new());
    assert_eq!(handler.mouse_cursor_icon(), None);
}

#[test]
fn gizmo_reports_what_it_is_doing() {
    let mut gizmo = SweepAngleGizmo::default();
    assert_eq!(gizmo.handle_state, SweepAngleGizmoState::Inactive);
    assert!(!gizmo.hovered() && !gizmo.is_dragging_or_snapped());
    gizmo.layer = Some(NodeId { id: 5 });
    gizmo.update_state(SweepAngleGizmoState::Snapped);
    assert!(gizmo.is_dragging_or_snapped() && !gizmo.hovered());
    assert_eq!(gizmo.layer, Some(NodeId { id: 5 }));
    gizmo.update_state(SweepAngleGizmoState::Hover);
    assert!(gizmo.hovered());
    gizmo.cleanup();
    assert_eq!(gizmo, SweepAngleGizmo::default());
}

#[test]
fn decimal_text_has_no_leading_zeros() {
    for n in [0u64, 1, 9, 10, 11, 99, 100, 101, 4294967295, 4294967296, u64::MAX] {
        assert_eq!(decimal_string(n), n.to_string());
    }
    let mut out = String::from("n = ");
    append_decimal(&mut out, 1200);
    assert_eq!(out, "n = 1200");
}

#[test]
fn bounded_numbers_stop_at_their_bound() {
    assert_eq!(parse_bounded(&to_chars("255"), 255), Some(255));
    assert_eq!(parse_bounded(&to_chars("256"), 255), None);
    assert_eq!(parse_bounded(&to_chars("+255"), 255), Some(255));
    assert_eq!(parse_bounded(&to_chars("0000"), 0), Some(0));
    assert_eq!(parse_bounded(&to_chars("1"), 0), None);
    assert_eq!(parse_bounded(&to_chars("9"), 5), None);
    assert_eq!(parse_bounded(&to_chars(""), 5), None);
    assert_eq!(parse_bounded(&to_chars("+"), 5), None);
    assert_eq!(parse_bounded(&to_chars("12a"), 500), None);
    assert_eq!(parse_bounded(&to_chars("999999999999999999999a"), u64::MAX), None);
}

#[test]
fn trimming_takes_white_space_off_the_ends() {
    let chars = to_chars(" \t\u{a0}a b\u{3000}\n");
    assert_eq!(chars.len(), 8);
    assert_eq!(trim(&chars, &CharClass::WhiteSpace, (0, 8)), (3, 6));
    assert_eq!(trim_front(&chars, &CharClass::WhiteSpace, (0, 8)), (3, 8));
    assert_eq!(trim(&chars, &CharClass::WhiteSpace, (4, 5)), (5, 5));
    assert_eq!(trim(&chars, &CharClass::WhiteSpace, (0, 3)), (3, 3));
    assert_eq!(trim(&chars, &CharClass::WhiteSpace, (2, 2)), (2, 2));
    let quoted = to_chars("\"\"x\"y\"");
    assert_eq!(trim(&quoted, &CharClass::Exactly('"'), (0, 6)), (2, 5));
    assert_eq!(trim(&quoted, &CharClass::WhiteSpace, (0, 6)), (0, 6));
    assert!(CharClass::WhiteSpace.test(' '));
    assert!(CharClass::WhiteSpace.test('\u{2028}'));
    assert!(!CharClass::WhiteSpace.test('a'));
    assert!(!CharClass::WhiteSpace.test('\u{200b}'));
    assert!(CharClass::Exactly('#').test('#'));
    assert!(!CharClass::Exactly('#').test(' '));
}

#[test]
fn splitting_gives_the_first_two_pieces() {
    assert_eq!(split_two(&to_chars("a,b"), ","), Some(((0, 1), (2, 3))));
    assert_eq!(split_two(&to_chars("a,b,c"), ","), Some(((0, 1), (2, 3))));
    assert_eq!(split_two(&to_chars(","), ","), Some(((0, 0), (1, 1))));
    assert_eq!(split_two(&to_chars("ab"), ","), None);
    assert_eq!(split_two(&to_chars(""), ","), None);
    assert_eq!(split_two(&to_chars("a::b"), "::"), Some(((0, 1), (3, 4))));
    assert_eq!(split_two(&to_chars(":::"), "::"), Some(((0, 0), (2, 3))));
    assert_eq!(split_two(&to_chars("::::"), "::"), Some(((0, 0), (2, 2))));
    assert_eq!(split_two(&to_chars("a:b"), "::"), None);
    assert_eq!(split_two(&to_chars("é::ü::x"), "::"), Some(((0, 1), (3, 4))));
    assert_eq!(find(&to_chars("a::b"), "::", 0, 4), 1);
    assert_eq!(find(&to_chars("a::b"), "::", 2, 4), 4);
    assert_eq!(find(&to_chars("a::b"), "::", 0, 2), 2);
    assert!(span_is(&to_chars("a::b"), (1, 3), "::"));
    assert!(!span_is(&to_chars("a::b"), (1, 4), "::"));
    assert!(span_is(&to_chars("abc"), (1, 1), ""));
}

#[test]
fn hexadecimal_digits_are_read_in_either_case() {
    assert_eq!(hex_digit('0'), Some(0));
    assert_eq!(hex_digit('9'), Some(9));
    assert_eq!(hex_digit('a'), Some(10));
    assert_eq!(hex_digit('f'), Some(15));
    assert_eq!(hex_digit('A'), Some(10));
    assert_eq!(hex_digit('F'), Some(15));
    for c in ['g', 'G', ' ', '+', '-', '/', ':', '@', '`', 'é', '٣'] {
        assert_eq!(hex_digit(c), None);
    }
    assert_eq!(hex_pair(&to_chars("ff"), 0), Some(255));
    assert_eq!(hex_pair(&to_chars("x7F"), 1), Some(127));
    assert_eq!(hex_pair(&to_chars("0g"), 0), None);
    for byte in 0..=255u8 {
        assert_eq!(hex_pair(&to_chars(&format!("{:02x}", byte)), 0), Some(byte));
        assert_eq!(hex_pair(&to_chars(&format!("{:02X}", byte)), 0), Some(byte));
    }
}

#[test]
fn white_space_is_what_the_standard_library_takes_for_it() {
    let mut count = 0;
    for code in 0..=0x10ffffu32 {
        if let Some(c) = char::from_u32(code) {
            assert_eq!(is_white_space(c), c.is_whitespace(), "U+{:04X}", code);
            assert_eq!(CharClass::WhiteSpace.test(c), c.is_whitespace(), "U+{:04X}", code);
            if c.is_whitespace() {
                count += 1;
            }
        }
    }
    assert_eq!(count, 25);
}

#[test]
fn trimming_agrees_with_the_standard_library() {
    for text in ["", " ", "a", "  a b  ", "\t\u{2003}x\u{3000}", "\u{85}\u{a0}y\u{1680}", "\u{200b}z\u{200b}", "\n\n"] {
        let chars = to_chars(text);
        let (from, end) = trim(&chars, &CharClass::WhiteSpace, (0, chars.len()));
        let trimmed: String = chars[from..end].iter().collect();
        assert_eq!(trimmed, text.trim(), "{:?}", text);
        let (from, end) = trim_front(&chars, &CharClass::WhiteSpace, (0, chars.len()));
        let trimmed: String = chars[from..end].iter().collect();
        assert_eq!(trimmed, text.trim_start(), "{:?}", text);
    }
}
