use graph_craft::color::Color;
use graph_craft::font_cache::{same_font, FontCache, FontData};
use graph_craft::graphics::{
    clone_artboards, clone_raster, clone_subpaths, Artboard, ManipulatorGroup, RasterInstance,
    Subpath,
};
use graph_craft::primitives::{Affine2, FloatBits, NodeId, PointId, Vector2};
use graph_craft::registry::ValueKind;
use graph_craft::style::{Font, Image};
use graph_craft::value::TaggedValue;
use std::collections::hash_map::DefaultHasher;
use std::hash::Hasher;
use std::sync::Arc;

fn font(family: &str, style: &str) -> Font {
    Font { family: String::from(family), style: String::from(style) }
}

fn hash_of_writes(writes: &[&[u8]]) -> u64 {
    let mut state = DefaultHasher::new();
    for write in writes {
        state.write(write);
    }
    state.finish()
}

fn key(kind: ValueKind) -> [u8; 8] {
    kind.identity().key.to_le_bytes()
}

#[test]
fn taking_a_font_in_makes_a_new_cache() {
    let empty = FontCache::new();
    assert_eq!(empty, FontCache::default());
    assert_eq!(empty.len(), 0);
    let regular = font("Cabin", "Regular (400)");
    let bold = font("Cabin", "Bold (700)");
    let one = empty.with(regular.clone(), vec![1, 2]);
    assert_eq!(empty.len(), 0);
    assert!(!empty.loaded_font(&regular));
    assert_eq!(one.len(), 1);
    assert_eq!(one.get(&regular), Some(&vec![1, 2]));
    assert_eq!(one.get(&bold), None);
    let two = one.with(bold.clone(), vec![3]);
    assert_eq!(one.len(), 1);
    assert_eq!(two.len(), 2);
    assert_eq!(two.get(&regular), Some(&vec![1, 2]));
    assert_eq!(two.get(&bold), Some(&vec![3]));
    let replaced = two.with(regular.clone(), vec![9]);
    assert_eq!(two.get(&regular), Some(&vec![1, 2]));
    assert_eq!(replaced.len(), 2);
    assert_eq!(replaced.get(&regular), Some(&vec![9]));
    assert_eq!(replaced.get(&bold), Some(&vec![3]));
    assert_eq!(
        replaced.entries(),
        &vec![
            FontData { font: regular.clone(), data: vec![9] },
            FontData { font: bold.clone(), data: vec![3] }
        ]
    );
    assert_eq!(replaced.clone(), replaced);
    assert!(same_font(&regular, &font("Cabin", "Regular (400)")));
    assert!(!same_font(&regular, &bold));
    assert!(!same_font(&regular, &font("Inter", "Regular (400)")));
}

#[test]
fn copy_of_a_shared_cache_is_another_holder_of_it() {
    let cache = Arc::new(FontCache::new().with(font("Inter", "Regular (400)"), vec![7; 16]));
    let value = TaggedValue::FontCache(cache.clone());
    assert_eq!(Arc::strong_count(&cache), 2);
    let copy = value.clone();
    assert_eq!(Arc::strong_count(&cache), 3);
    assert_eq!(copy, value);
    match (&copy, &value) {
        (TaggedValue::FontCache(a), TaggedValue::FontCache(b)) => {
            assert!(Arc::ptr_eq(a, b));
            assert!(Arc::ptr_eq(a, &cache));
        }
        _ => panic!("a copy is of the same variant"),
    }
    assert_eq!(copy.content_hash(), value.content_hash());
    drop(copy);
    assert_eq!(Arc::strong_count(&cache), 2);
    let erased = value.to_any();
    assert_eq!(
        TaggedValue::try_from_std_any_ref(&erased),
        Ok(TaggedValue::FontCache(cache.clone()))
    );
}

#[test]
fn tables_are_copied_item_by_item() {
    let paths = vec![
        Subpath { manipulator_groups: vec![], closed: false },
        Subpath {
            manipulator_groups: vec![ManipulatorGroup {
                anchor: Vector2::new(FloatBits::new(1), FloatBits::new(2)),
                in_handle: Some(Vector2::new(FloatBits::new(3), FloatBits::new(4))),
                out_handle: None,
                id: PointId { id: 9 },
            }],
            closed: true,
        },
    ];
    assert_eq!(clone_subpaths(&paths), paths);
    let boards = vec![Artboard::default()];
    assert_eq!(clone_artboards(&boards), boards);
    let raster = vec![RasterInstance {
        image: Image { width: 1, height: 1, data: vec![Color::from_rgb8(1, 2, 3)] },
        transform: Affine2::default(),
        source_node_id: None,
    }];
    assert_eq!(clone_raster(&raster), raster);
    assert_eq!(clone_raster(&vec![]), vec![]);
}

#[test]
fn default_artboard_is_white_and_full_size() {
    assert_eq!(
        Artboard::default(),
        Artboard {
            label: String::from("Artboard"),
            x: 0,
            y: 0,
            width: 1920,
            height: 1080,
            background: Color::from_rgb8(255, 255, 255),
            clip: false,
        }
    );
    assert_eq!(
        TaggedValue::default_of(ValueKind::Artboard),
        Some(TaggedValue::Artboard(Artboard::default()))
    );
    assert_eq!(
        TaggedValue::default_of(ValueKind::ArtboardGroup),
        Some(TaggedValue::ArtboardGroup(vec![]))
    );
    assert_eq!(TaggedValue::default_of(ValueKind::Subpaths), Some(TaggedValue::Subpaths(vec![])));
    assert_eq!(
        TaggedValue::default_of(ValueKind::RasterData),
        Some(TaggedValue::RasterData(vec![]))
    );
    assert_eq!(
        TaggedValue::default_of(ValueKind::FontCache),
        Some(TaggedValue::FontCache(Arc::new(FontCache::new())))
    );
}

#[test]
fn graphical_data_hashes_its_parts_in_order() {
    let board = Artboard {
        label: String::from("A"),
        x: -1,
        y: 0,
        width: i32::MAX,
        height: i32::MIN,
        background: Color::from_rgb8(1, 2, 3),
        clip: true,
    };
    assert_eq!(
        TaggedValue::Artboard(board).content_hash(),
        hash_of_writes(&[
            &key(ValueKind::Artboard),
            b"A",
            &[0xff],
            &0x7fff_ffffu32.to_le_bytes(),
            &0x8000_0000u32.to_le_bytes(),
            &0xffff_ffffu32.to_le_bytes(),
            &0u32.to_le_bytes(),
            &[1, 2, 3, 255],
            &[1]
        ])
    );
    let path = Subpath {
        manipulator_groups: vec![ManipulatorGroup {
            anchor: Vector2::new(FloatBits::new(1), FloatBits::new(2)),
            in_handle: None,
            out_handle: Some(Vector2::new(FloatBits::new(3), FloatBits::new(4))),
            id: PointId { id: 5 },
        }],
        closed: false,
    };
    assert_eq!(
        TaggedValue::Subpaths(vec![path]).content_hash(),
        hash_of_writes(&[
            &key(ValueKind::Subpaths),
            &1u64.to_le_bytes(),
            &1u64.to_le_bytes(),
            &1u64.to_le_bytes(),
            &2u64.to_le_bytes(),
            &0u32.to_le_bytes(),
            &1u32.to_le_bytes(),
            &3u64.to_le_bytes(),
            &4u64.to_le_bytes(),
            &5u64.to_le_bytes(),
            &[0]
        ])
    );
    let one = 1.0f64.to_bits().to_le_bytes();
    let zero = 0u64.to_le_bytes();
    let raster = RasterInstance {
        image: Image { width: 0, height: 0, data: vec![] },
        transform: Affine2::default(),
        source_node_id: Some(NodeId { id: 8 }),
    };
    assert_eq!(
        TaggedValue::RasterData(vec![raster]).content_hash(),
        hash_of_writes(&[
            &key(ValueKind::RasterData),
            &1u64.to_le_bytes(),
            &0u32.to_le_bytes(),
            &0u32.to_le_bytes(),
            &0u64.to_le_bytes(),
            &one,
            &zero,
            &zero,
            &one,
            &zero,
            &zero,
            &1u32.to_le_bytes(),
            &8u64.to_le_bytes()
        ])
    );
    let cache = FontCache::new().with(font("F", "S"), vec![4, 5]);
    assert_eq!(
        TaggedValue::FontCache(Arc::new(cache)).content_hash(),
        hash_of_writes(&[
            &key(ValueKind::FontCache),
            &1u64.to_le_bytes(),
            b"F",
            &[0xff],
            b"S",
            &[0xff],
            &2u64.to_le_bytes(),
            &[4, 5]
        ])
    );
    assert_eq!(
        TaggedValue::ArtboardGroup(vec![]).content_hash(),
        hash_of_writes(&[&key(ValueKind::ArtboardGroup), &0u64.to_le_bytes()])
    );
}
