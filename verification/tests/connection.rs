use sync_edit::connection::{
    custom_object_files, decoration_id, get_map_editor, mood_name, open_map_editor_step, placement_plan,
    EditorAction, EditorStep, ModelTable, ModuleClass,
};
use sync_edit::desc::{
    hash, BlockDesc, CustomBlockDesc, CustomItemDesc, Direction, ElemColor, FreeBlockDesc, GhostBlockDesc,
    ItemDesc, MapDesc, ModelId, Mood, PhaseOffset, Vec3,
};

const MODULE: ModuleClass = ModuleClass { is_editor: false, is_menus: false };
const MENUS: ModuleClass = ModuleClass { is_editor: false, is_menus: true };
const EDITOR: ModuleClass = ModuleClass { is_editor: true, is_menus: false };

#[test]
fn decoration_names_follow_the_mood() {
    assert_eq!(decoration_id(Mood::Day), "48x48Screen155Day");
    assert_eq!(decoration_id(Mood::Sunset), "48x48Screen155Sunset");
    assert_eq!(decoration_id(Mood::Night), "48x48Screen155Night");
    assert_eq!(decoration_id(Mood::Sunrise), "48x48Screen155Sunrise");
    assert_eq!(mood_name(Mood::Night), "Night");
}

#[test]
fn opening_the_editor() {
    assert_eq!(open_map_editor_step(&[]), EditorStep::Wait);
    assert_eq!(open_map_editor_step(&[MODULE, MENUS]), EditorStep::EditNewMap);
    assert_eq!(open_map_editor_step(&[MENUS, MODULE]), EditorStep::BackToMainMenu);
    assert_eq!(open_map_editor_step(&[MENUS, EDITOR, MODULE]), EditorStep::Done);
    assert_eq!(get_map_editor(&[MENUS, EDITOR, EDITOR]), Some(1));
    assert_eq!(get_map_editor(&[MENUS, MODULE]), None);
}

#[test]
fn custom_files_are_named_after_their_hash() {
    let desc = MapDesc {
        custom_blocks: vec![CustomBlockDesc { bytes: vec![] }],
        custom_items: vec![CustomItemDesc { bytes: vec![1] }],
        blocks: vec![],
        ghost_blocks: vec![],
        free_blocks: vec![],
        items: vec![],
    };
    let files = custom_object_files(&desc);
    assert_eq!(files.len(), 2);
    assert_eq!(
        String::from_utf8(files[0].file_name.clone()).unwrap(),
        "af1349b9f5f9a1a6a0404dea36dcc9499bcb25c9adc112b7cc9a93cae41f3262.Block.Gbx"
    );
    assert!(files[0].is_block && !files[1].is_block);
    let hex1 = blake3::hash(&[1]).to_hex().to_string();
    assert_eq!(String::from_utf8(files[1].file_name.clone()).unwrap(), format!("{hex1}.Item.Gbx"));
}

#[test]
fn model_tables_resolve_the_last_entry() {
    let h = hash(b"model");
    let table = ModelTable {
        game: vec![("A".to_string(), 1), ("B".to_string(), 2), ("A".to_string(), 3)],
        custom: vec![(h, 7)],
    };
    assert_eq!(table.resolve(&ModelId::Game { id: "A".to_string() }), Some(3));
    assert_eq!(table.resolve(&ModelId::Game { id: "C".to_string() }), None);
    assert_eq!(table.resolve(&ModelId::Custom { hash: h }), Some(7));
    assert_eq!(table.resolve(&ModelId::Custom { hash: hash(b"other") }), None);
}

#[test]
fn plan_places_blocks_in_air_mode_then_the_rest() {
    let coord = Vec3 { x: 1, y: 2, z: 3 };
    let desc = MapDesc {
        custom_blocks: vec![],
        custom_items: vec![],
        blocks: vec![BlockDesc {
            block_info_id: ModelId::Game { id: "A".to_string() },
            coord,
            dir: Direction::South,
            is_air_variant: false,
            elem_color: ElemColor::Blue,
        }],
        ghost_blocks: vec![GhostBlockDesc {
            block_info_id: ModelId::Game { id: "B".to_string() },
            coord,
            dir: Direction::West,
            is_air_variant: false,
            elem_color: ElemColor::Default,
        }],
        free_blocks: vec![FreeBlockDesc {
            block_info_id: ModelId::Game { id: "A".to_string() },
            position: Vec3 { x: 1, y: 2, z: 3 },
            yaw: 4,
            pitch: 5,
            roll: 6,
            elem_color: ElemColor::Black,
        }],
        items: vec![ItemDesc {
            item_model_id: ModelId::Game { id: "T".to_string() },
            position: Vec3 { x: 7, y: 8, z: 9 },
            yaw: 1,
            pitch: 2,
            roll: 3,
            pivot_position: Vec3 { x: 0, y: 0, z: 0 },
            elem_color: ElemColor::White,
            anim_offset: PhaseOffset::Seven8th,
        }],
    };
    let blocks = ModelTable { game: vec![("A".to_string(), 10), ("B".to_string(), 11)], custom: vec![] };
    let items = ModelTable { game: vec![("T".to_string(), 20)], custom: vec![] };
    let plan = placement_plan(&desc, &blocks, &items);
    assert_eq!(
        plan,
        vec![
            EditorAction::RemoveAll,
            EditorAction::EnterAirMode,
            EditorAction::PlaceBlock { block_info: 10, coord, dir: Direction::South, elem_color: ElemColor::Blue },
            EditorAction::RestoreAirMode,
            EditorAction::PlaceGhostBlock {
                block_info: 11,
                coord,
                dir: Direction::West,
                elem_color: ElemColor::Default
            },
            EditorAction::PlaceFreeBlock {
                block_info: 10,
                position: Vec3 { x: 1, y: 2, z: 3 },
                yaw: 4,
                pitch: 5,
                roll: 6,
                elem_color: ElemColor::Black
            },
            EditorAction::PlaceItem {
                item_model: 20,
                position: Vec3 { x: 7, y: 8, z: 9 },
                yaw: 1,
                pitch: 2,
                roll: 3,
                pivot_position: Vec3 { x: 0, y: 0, z: 0 },
                elem_color: ElemColor::White,
                anim_offset: PhaseOffset::Seven8th
            },
        ]
    );
}
