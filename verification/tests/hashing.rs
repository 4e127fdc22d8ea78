use graph_craft::color::Color;
use graph_craft::descriptor::TypeIdentity;
use graph_craft::erased::ErasedValue;
use graph_craft::memo::MemoHash;
use graph_craft::node::{UpcastAsRefNode, UpcastNode};
use graph_craft::primitives::{
    Affine2, EnvironmentHandle, FloatBits, NodeId, SurfaceId, TextureHandle, Vector2,
};
use graph_craft::registry::{ValueKind, KIND_COUNT};
use graph_craft::render::{
    EmbeddedImage, NodeTransform, RenderMetadata, RenderOutput, RenderOutputType, SurfaceFrame,
};
use graph_craft::style::{Fill, Font, Gradient, GradientStop, GradientStops, Image};
use graph_craft::value::TaggedValue;
use std::collections::hash_map::DefaultHasher;
use std::hash::Hasher;

fn float(x: f64) -> TaggedValue {
    TaggedValue::F64(FloatBits::new(x.to_bits()))
}

/// The hash of a sequence of writes, by the hasher of the standard library.
fn hash_of_writes(writes: &[&[u8]]) -> u64 {
    let mut state = DefaultHasher::new();
    for write in writes {
        state.write(write);
    }
    state.finish()
}

fn key(kind: ValueKind) -> [u8; 8] {
    kind.identity().key.to_le_bytes()
}

#[test]
fn same_value_hashes_the_same_every_time() {
    let nan = f64::from_bits(0x7ff8_0000_0000_1234);
    assert!(nan.is_nan());
    let values = [
        float(1.0),
        float(nan),
        float(f64::NAN),
        TaggedValue::VecF64(vec![FloatBits::new(nan.to_bits()), FloatBits::new(0)]),
        TaggedValue::String(String::from("text")),
        TaggedValue::Gradient(Gradient::default()),
    ];
    for value in values {
        let first = value.content_hash();
        let second = value.content_hash();
        let copy = value.clone().content_hash();
        assert_eq!(first, second);
        assert_eq!(first, copy);
    }
}

#[test]
fn one_hashes_like_one_and_unlike_its_neighbour() {
    assert_eq!(float(1.0).content_hash(), float(1.0).content_hash());
    assert_ne!(float(1.0).content_hash(), float(1.0 + f64::EPSILON).content_hash());
    assert_ne!(float(0.0).content_hash(), float(-0.0).content_hash());
    assert_ne!(
        float(f64::from_bits(0x7ff8_0000_0000_0001)).content_hash(),
        float(f64::from_bits(0x7ff8_0000_0000_0002)).content_hash()
    );
}

#[test]
fn kinds_with_the_same_payload_bits_hash_apart() {
    assert_eq!(0.0f64.to_bits(), 0u64);
    assert_ne!(float(0.0).content_hash(), TaggedValue::U64(0).content_hash());
    assert_ne!(TaggedValue::U32(0).content_hash(), TaggedValue::U64(0).content_hash());
    assert_ne!(TaggedValue::Unit.content_hash(), TaggedValue::Bool(false).content_hash());
    assert_ne!(
        TaggedValue::VecU64(vec![]).content_hash(),
        TaggedValue::VecF64(vec![]).content_hash()
    );
    assert_ne!(
        TaggedValue::OptionalF64(None).content_hash(),
        TaggedValue::OptionalDVec2(None).content_hash()
    );
}

#[test]
fn hash_is_that_of_the_key_then_the_payload() {
    assert_eq!(TaggedValue::Unit.content_hash(), hash_of_writes(&[&key(ValueKind::Unit)]));
    assert_eq!(
        TaggedValue::U64(5).content_hash(),
        hash_of_writes(&[&key(ValueKind::U64), &5u64.to_le_bytes()])
    );
    assert_eq!(
        TaggedValue::U32(5).content_hash(),
        hash_of_writes(&[&key(ValueKind::U32), &5u32.to_le_bytes()])
    );
    assert_eq!(
        TaggedValue::Bool(true).content_hash(),
        hash_of_writes(&[&key(ValueKind::Bool), &[1]])
    );
    assert_eq!(
        TaggedValue::Bool(false).content_hash(),
        hash_of_writes(&[&key(ValueKind::Bool), &[0]])
    );
    assert_eq!(
        float(1.5).content_hash(),
        hash_of_writes(&[&key(ValueKind::F64), &1.5f64.to_bits().to_le_bytes()])
    );
    assert_eq!(
        TaggedValue::String(String::from("hé")).content_hash(),
        hash_of_writes(&[&key(ValueKind::String), "hé".as_bytes(), &[0xff]])
    );
    assert_eq!(
        TaggedValue::Color(Color::from_rgba8(1, 2, 3, 4)).content_hash(),
        hash_of_writes(&[&key(ValueKind::Color), &[1, 2, 3, 4]])
    );
    assert_eq!(
        TaggedValue::EditorApi(EnvironmentHandle { id: 9 }).content_hash(),
        hash_of_writes(&[&key(ValueKind::EditorApi), &9u64.to_le_bytes()])
    );
}

#[test]
fn optional_values_hash_a_one_or_a_zero_first() {
    assert_eq!(
        TaggedValue::OptionalF64(None).content_hash(),
        hash_of_writes(&[&key(ValueKind::OptionalF64), &0u32.to_le_bytes()])
    );
    assert_eq!(
        TaggedValue::OptionalF64(Some(FloatBits::new(7))).content_hash(),
        hash_of_writes(&[&key(ValueKind::OptionalF64), &1u32.to_le_bytes(), &7u64.to_le_bytes()])
    );
    assert_eq!(
        TaggedValue::OptionalColor(Some(Color::from_rgb8(1, 2, 3))).content_hash(),
        hash_of_writes(&[&key(ValueKind::OptionalColor), &1u32.to_le_bytes(), &[1, 2, 3, 255]])
    );
    assert_ne!(
        TaggedValue::OptionalF64(None).content_hash(),
        TaggedValue::OptionalF64(Some(FloatBits::new(0))).content_hash()
    );
}

#[test]
fn sequences_hash_their_length_then_their_items() {
    assert_eq!(
        TaggedValue::VecU64(vec![]).content_hash(),
        hash_of_writes(&[&key(ValueKind::VecU64), &0u64.to_le_bytes()])
    );
    assert_eq!(
        TaggedValue::VecU64(vec![8, 9]).content_hash(),
        hash_of_writes(&[
            &key(ValueKind::VecU64),
            &2u64.to_le_bytes(),
            &8u64.to_le_bytes(),
            &9u64.to_le_bytes()
        ])
    );
    assert_eq!(
        TaggedValue::VecDVec2(vec![Vector2::new(FloatBits::new(1), FloatBits::new(2))])
            .content_hash(),
        hash_of_writes(&[
            &key(ValueKind::VecDVec2),
            &1u64.to_le_bytes(),
            &1u64.to_le_bytes(),
            &2u64.to_le_bytes()
        ])
    );
    assert_eq!(
        TaggedValue::GradientStops(GradientStops {
            stops: vec![GradientStop { position: FloatBits::new(3), color: Color::from_rgb8(4, 5, 6) }],
        })
        .content_hash(),
        hash_of_writes(&[
            &key(ValueKind::GradientStops),
            &1u64.to_le_bytes(),
            &3u64.to_le_bytes(),
            &[4, 5, 6, 255]
        ])
    );
    assert_ne!(
        TaggedValue::VecU64(vec![]).content_hash(),
        TaggedValue::VecU64(vec![0]).content_hash()
    );
    assert_ne!(
        TaggedValue::VecU64(vec![1, 2]).content_hash(),
        TaggedValue::VecU64(vec![2, 1]).content_hash()
    );
}

#[test]
fn arrays_hash_their_items_only() {
    let array = [FloatBits::new(1), FloatBits::new(2), FloatBits::new(3), FloatBits::new(4)];
    assert_eq!(
        TaggedValue::F64Array4(array).content_hash(),
        hash_of_writes(&[
            &key(ValueKind::F64Array4),
            &1u64.to_le_bytes(),
            &2u64.to_le_bytes(),
            &3u64.to_le_bytes(),
            &4u64.to_le_bytes()
        ])
    );
    let one = 1.0f64.to_bits().to_le_bytes();
    let zero = 0u64.to_le_bytes();
    assert_eq!(
        TaggedValue::DAffine2(Affine2::default()).content_hash(),
        hash_of_writes(&[&key(ValueKind::DAffine2), &one, &zero, &zero, &one, &zero, &zero])
    );
}

#[test]
fn structured_values_hash_their_parts_in_order() {
    assert_eq!(
        TaggedValue::Font(Font { family: String::from("A"), style: String::from("B") })
            .content_hash(),
        hash_of_writes(&[&key(ValueKind::Font), b"A", &[0xff], b"B", &[0xff]])
    );
    assert_eq!(
        TaggedValue::Image(Image { width: 1, height: 2, data: vec![Color::from_rgb8(7, 8, 9)] })
            .content_hash(),
        hash_of_writes(&[
            &key(ValueKind::Image),
            &1u32.to_le_bytes(),
            &2u32.to_le_bytes(),
            &1u64.to_le_bytes(),
            &[7, 8, 9, 255]
        ])
    );
    assert_eq!(
        TaggedValue::Fill(Fill::NoFill).content_hash(),
        hash_of_writes(&[&key(ValueKind::Fill), &0u64.to_le_bytes()])
    );
    assert_eq!(
        TaggedValue::Fill(Fill::Solid(Color::from_rgb8(1, 1, 1))).content_hash(),
        hash_of_writes(&[&key(ValueKind::Fill), &1u64.to_le_bytes(), &[1, 1, 1, 255]])
    );
    let frame = SurfaceFrame {
        surface_id: SurfaceId { id: 3 },
        width: 4,
        height: 5,
        transform: Affine2::default(),
    };
    let one = 1.0f64.to_bits().to_le_bytes();
    let zero = 0u64.to_le_bytes();
    assert_eq!(
        TaggedValue::SurfaceFrame(frame).content_hash(),
        hash_of_writes(&[
            &key(ValueKind::SurfaceFrame),
            &3u64.to_le_bytes(),
            &4u32.to_le_bytes(),
            &5u32.to_le_bytes(),
            &one,
            &zero,
            &zero,
            &one,
            &zero,
            &zero
        ])
    );
}

fn output(data: RenderOutputType, clip: u64) -> TaggedValue {
    TaggedValue::RenderOutput(RenderOutput {
        data,
        metadata: RenderMetadata {
            local_transforms: vec![NodeTransform {
                node: NodeId { id: clip },
                transform: Affine2::default(),
            }],
            clip_targets: vec![NodeId { id: clip }],
        },
    })
}

#[test]
fn render_output_hashes_its_data_and_not_its_metadata() {
    let a = output(RenderOutputType::Image(vec![1, 2, 3]), 1);
    let b = output(RenderOutputType::Image(vec![1, 2, 3]), 2);
    let c = output(RenderOutputType::Image(vec![1, 2, 4]), 1);
    assert_ne!(a, b);
    assert_eq!(a.content_hash(), b.content_hash());
    assert_ne!(a.content_hash(), c.content_hash());
    assert_eq!(
        a.content_hash(),
        hash_of_writes(&[
            &key(ValueKind::RenderOutput),
            &3u64.to_le_bytes(),
            &3u64.to_le_bytes(),
            &[1, 2, 3]
        ])
    );
    let texture = output(RenderOutputType::Texture(TextureHandle { id: 6 }), 0);
    assert_eq!(
        texture.content_hash(),
        hash_of_writes(&[&key(ValueKind::RenderOutput), &1u64.to_le_bytes(), &6u64.to_le_bytes()])
    );
    let svg = output(
        RenderOutputType::Svg {
            svg: String::from("<svg/>"),
            image_data: vec![EmbeddedImage {
                id: 2,
                image: Image { width: 0, height: 0, data: vec![] },
            }],
        },
        0,
    );
    assert_eq!(
        svg.content_hash(),
        hash_of_writes(&[
            &key(ValueKind::RenderOutput),
            &2u64.to_le_bytes(),
            b"<svg/>",
            &[0xff],
            &1u64.to_le_bytes(),
            &2u64.to_le_bytes(),
            &0u32.to_le_bytes(),
            &0u32.to_le_bytes(),
            &0u64.to_le_bytes()
        ])
    );
}

#[test]
fn hashing_continues_what_a_hasher_already_holds() {
    let mut state = DefaultHasher::new();
    state.write(b"before");
    TaggedValue::U64(5).hash_into(&mut state);
    TaggedValue::Unit.hash_into(&mut state);
    assert_eq!(
        state.finish(),
        hash_of_writes(&[
            b"before",
            &key(ValueKind::U64),
            &5u64.to_le_bytes(),
            &key(ValueKind::Unit)
        ])
    );
}

#[test]
fn memoized_value_keeps_the_hash_of_its_value() {
    let value = TaggedValue::String(String::from("constant"));
    let expected = value.content_hash();
    let memo = MemoHash::new(value.clone());
    assert_eq!(memo.hash_code(), expected);
    assert_eq!(memo.inner(), &value);
    assert_eq!(memo.clone().hash_code(), expected);
    assert_eq!(memo.into_inner(), value);
}

#[test]
fn upcast_node_gives_its_value_erased_whatever_the_input() {
    let value = TaggedValue::VecU64(vec![1, 2, 3]);
    let node = UpcastNode::new(MemoHash::new(value.clone()));
    assert_eq!(node.hash_code(), value.content_hash());
    let inputs = [
        TaggedValue::Unit.to_dynany(),
        TaggedValue::Bool(true).to_dynany(),
        ErasedValue::foreign(TypeIdentity { key: KIND_COUNT }, "Foreign").unwrap(),
    ];
    for input in inputs {
        let result = node.eval(input);
        assert_eq!(result.identity(), ValueKind::VecU64.identity());
        assert_eq!(TaggedValue::try_from_any(result), Ok(value.clone()));
    }
    assert_eq!(node.hash_code(), value.content_hash());
}

#[test]
fn reference_upcast_node_lends_what_it_owns() {
    let node: UpcastAsRefNode<Box<u32>, u32> = UpcastAsRefNode::new(Box::new(7));
    assert_eq!(**node.eval(), 7);
    assert!(std::ptr::eq(node.eval(), &node.0));
    let borrowed: &u32 = node.eval().as_ref();
    assert_eq!(*borrowed, 7);
    assert!(std::ptr::eq(borrowed, &*node.0));
    let text: UpcastAsRefNode<String, String> = UpcastAsRefNode::new(String::from("owned"));
    assert_eq!(text.0, "owned");
    assert_eq!(text.eval(), "owned");
}
