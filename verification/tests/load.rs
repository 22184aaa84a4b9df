use sync_edit::desc::{hash, ContentHash, Direction, ElemColor, ModelId, PhaseOffset, ServerMap, Vec3};
use sync_edit::load::{build_map_desc, custom_models, embedded_objects, EmbeddedFile, EmbeddedObjects, GbxBlock, GbxBlockKind, GbxItem};

const EMPTY_HASH_HEX: &str = "af1349b9f5f9a1a6a0404dea36dcc9499bcb25c9adc112b7cc9a93cae41f3262";

#[test]
fn blake3_hash_of_empty_input() {
    let h = hash(&[]);
    assert_eq!(String::from_utf8(h.to_hex()).unwrap(), EMPTY_HASH_HEX);
    assert_eq!(h.bytes, *blake3::hash(&[]).as_bytes());
    assert!(h.same(&hash(b"")));
    assert!(!h.same(&hash(b"x")));
}

#[test]
fn hex_is_lowercase_two_digits_per_byte() {
    let mut bytes = [0u8; 32];
    bytes[0] = 0x0f;
    bytes[1] = 0xa0;
    let h = ContentHash { bytes };
    let hex = String::from_utf8(h.to_hex()).unwrap();
    assert_eq!(&hex[..4], "0fa0");
    assert_eq!(hex.len(), 64);
}

fn objects() -> EmbeddedObjects {
    EmbeddedObjects {
        ids: vec!["Ramp".to_string(), "Tree".to_string(), "Readme".to_string(), "Ramp".to_string()],
        files: vec![
            EmbeddedFile { name: "Blocks/Ramp.Block.Gbx".to_string(), bytes: vec![1, 2] },
            EmbeddedFile { name: "Items/Tree.Item.Gbx".to_string(), bytes: vec![3] },
            EmbeddedFile { name: "readme.txt".to_string(), bytes: vec![4] },
            EmbeddedFile { name: "Blocks/Ramp2.Block.Gbx".to_string(), bytes: vec![5] },
        ],
    }
}

#[test]
fn custom_models_sorted_by_suffix() {
    let m = custom_models(&objects());
    assert_eq!(m.custom_blocks.iter().map(|c| c.bytes.clone()).collect::<Vec<_>>(), vec![vec![1, 2], vec![5]]);
    assert_eq!(m.custom_items.iter().map(|c| c.bytes.clone()).collect::<Vec<_>>(), vec![vec![3]]);
    assert_eq!(m.block_hashes.len(), 2);
    assert_eq!(m.block_hashes[0].0, "Ramp_CustomBlock");
    assert_eq!(m.block_hashes[0].1.bytes, *blake3::hash(&[1, 2]).as_bytes());
    assert_eq!(m.item_hashes[0].0, "Tree");
}

fn normal(id: &str, x: u8, ghost: bool) -> GbxBlock {
    GbxBlock {
        info_id: id.to_string(),
        elem_color: ElemColor::Red,
        kind: GbxBlockKind::Normal {
            coord: Vec3 { x, y: 9, z: 2 },
            dir: Direction::East,
            is_ghost: ghost,
            is_air_variant: true,
        },
    }
}

#[test]
fn map_desc_sorts_blocks_and_resolves_custom_models() {
    let blocks = vec![
        normal("PlatformBase", 1, false),
        normal("Ramp_CustomBlock", 2, true),
        GbxBlock {
            info_id: "Road".to_string(),
            elem_color: ElemColor::Default,
            kind: GbxBlockKind::Free { position: Vec3 { x: 1, y: 2, z: 3 }, yaw: 4, pitch: 5, roll: 6 },
        },
        normal("Ramp_CustomBlock", 3, false),
    ];
    let items = vec![GbxItem {
        model_id: "Tree".to_string(),
        position: Vec3 { x: 0x4000_0000, y: 0, z: 0 },
        yaw: 0,
        pitch: 0,
        roll: 0,
        pivot_position: Vec3 { x: 0, y: 0, z: 0 },
        elem_color: ElemColor::Green,
        anim_offset: PhaseOffset::Two8th,
    }];
    let desc = build_map_desc(Some(objects()), &blocks, &items);
    assert_eq!(desc.custom_blocks.len(), 2);
    assert_eq!(desc.blocks.len(), 2);
    assert_eq!(desc.ghost_blocks.len(), 1);
    assert_eq!(desc.free_blocks.len(), 1);
    // every block is described once
    assert_eq!(desc.blocks.len() + desc.ghost_blocks.len() + desc.free_blocks.len(), blocks.len());
    assert!(matches!(&desc.blocks[0].block_info_id, ModelId::Game { id } if id == "PlatformBase"));
    assert_eq!(desc.blocks[0].coord, Vec3 { x: 1, y: 9, z: 2 });
    // the later file with the same identifier wins
    let ramp2 = *blake3::hash(&[5]).as_bytes();
    assert!(matches!(&desc.blocks[1].block_info_id, ModelId::Custom { hash } if hash.bytes == ramp2));
    assert!(matches!(&desc.ghost_blocks[0].block_info_id, ModelId::Custom { hash } if hash.bytes == ramp2));
    assert_eq!(desc.ghost_blocks[0].coord.x, 2);
    assert_eq!(desc.free_blocks[0].yaw, 4);
    let tree = *blake3::hash(&[3]).as_bytes();
    assert!(matches!(&desc.items[0].item_model_id, ModelId::Custom { hash } if hash.bytes == tree));
    assert_eq!(desc.items[0].anim_offset, PhaseOffset::Two8th);
}

#[test]
fn map_without_embedded_objects_uses_game_models() {
    let desc = build_map_desc(None, &vec![normal("Ramp_CustomBlock", 0, false)], &vec![]);
    assert!(desc.custom_blocks.is_empty());
    assert!(matches!(&desc.blocks[0].block_info_id, ModelId::Game { id } if id == "Ramp_CustomBlock"));
}

#[test]
fn server_map_starts_empty() {
    let map = ServerMap::new();
    assert!(map.desc.blocks.is_empty() && map.desc.items.is_empty() && map.desc.custom_blocks.is_empty());
}

fn archive(files: &[(&str, &[u8])]) -> Vec<u8> {
    let mut writer = zip::ZipWriter::new(std::io::Cursor::new(Vec::new()));
    for (name, bytes) in files {
        writer.start_file(*name, zip::write::FileOptions::default()).unwrap();
        std::io::Write::write_all(&mut writer, bytes).unwrap();
    }
    writer.finish().unwrap().into_inner()
}

#[test]
fn embedded_objects_are_read_from_the_archive() {
    let data = archive(&[("Blocks/Ramp.Block.Gbx", &[1, 2]), ("readme.txt", &[4]), ("Items/Tree.Item.Gbx", &[3])]);
    let objects = embedded_objects(vec!["Ramp".to_string(), "x".to_string(), "Tree".to_string()], &data).unwrap();
    assert_eq!(objects.ids, vec!["Ramp", "x", "Tree"]);
    let files: Vec<_> = objects.files.iter().map(|f| (f.name.as_str(), f.bytes.clone())).collect();
    assert_eq!(files, vec![("Blocks/Ramp.Block.Gbx", vec![1, 2]), ("readme.txt", vec![4]), ("Items/Tree.Item.Gbx", vec![3])]);
    let m = custom_models(&objects);
    assert_eq!(m.block_hashes[0].0, "Ramp_CustomBlock");
    // a custom model file without an identifier
    assert!(embedded_objects(vec!["Ramp".to_string(), "x".to_string()], &data).is_none());
    // a file that is not a model needs no identifier
    let data = archive(&[("Blocks/Ramp.Block.Gbx", &[1, 2]), ("readme.txt", &[4])]);
    assert!(embedded_objects(vec!["Ramp".to_string()], &data).is_some());
    // not an archive
    assert!(embedded_objects(vec![], &[1, 2, 3]).is_none());
}

#[test]
fn archive_with_an_aes_field_on_a_plain_file_is_refused() {
    let mut writer = zip::ZipWriter::new(std::io::Cursor::new(Vec::new()));
    let options = zip::write::FileOptions::default().compression_method(zip::CompressionMethod::Stored);
    writer.start_file_with_extra_data("Items/Tree.Item.Gbx", options).unwrap();
    std::io::Write::write_all(&mut writer, &[0x77, 0x77, 7, 0, 0xaa, 0xaa, 0xaa, 0xaa, 0xaa, 0xaa, 0xaa]).unwrap();
    writer.end_extra_data().unwrap();
    std::io::Write::write_all(&mut writer, &[3]).unwrap();
    let mut data = writer.finish().unwrap().into_inner();
    // turn the extra field into an AES one (vendor "AE", version 2, 256 bits, stored)
    let from = [0x77u8, 0x77, 7, 0, 0xaa, 0xaa, 0xaa, 0xaa, 0xaa, 0xaa, 0xaa];
    let to = [0x01u8, 0x99, 7, 0, 2, 0, 0x41, 0x45, 3, 0, 0];
    let mut patched = 0;
    let mut i = 0;
    while i + from.len() <= data.len() {
        if data[i..i + from.len()] == from {
            data[i..i + from.len()].copy_from_slice(&to);
            patched += 1;
        }
        i += 1;
    }
    assert_eq!(patched, 2);
    assert!(embedded_objects(vec!["Tree".to_string()], &data).is_none());
}
