//! The client's decisions while it joins a session: opening the map editor,
//! preparing the custom models it receives, and the order in which it
//! recreates the server's map in the editor.
use vstd::prelude::*;
use vstd::string::StringExecFns;
use crate::desc::{
    blake3_hash, hash, hex_spec, ContentHash, Direction, ElemColor, MapDesc, ModelId, ModelKey, Mood,
    PhaseOffset, Vec3,
};

verus! {

/// The name of a mood in the game's decoration identifiers.
pub open spec fn mood_name_spec(mood: Mood) -> Seq<char> {
    match mood {
        Mood::Day => "Day"@,
        Mood::Sunset => "Sunset"@,
        Mood::Night => "Night"@,
        Mood::Sunrise => "Sunrise"@,
    }
}

/// The name of a mood in the game's decoration identifiers.
pub fn mood_name(mood: Mood) -> (r: &'static str)
    ensures
        r@ == mood_name_spec(mood),
{
    match mood {
        Mood::Day => "Day",
        Mood::Sunset => "Sunset",
        Mood::Night => "Night",
        Mood::Sunrise => "Sunrise",
    }
}

/// The decoration of a new map with the given mood: `48x48Screen155<mood>`.
pub fn decoration_id(mood: Mood) -> (r: String)
    ensures
        r@ == "48x48Screen155"@ + mood_name_spec(mood),
{
    String::from_str("48x48Screen155").concat(mood_name(mood))
}

/// What the client knows of a module on the game's module stack.
#[derive(Debug, Clone, Copy, PartialEq, Eq)]
pub struct ModuleClass {
    /// The module is a map editor (`CGameCtnEditorCommon`).
    pub is_editor: bool,
    /// The module is the menus (`CGameCtnMenus`).
    pub is_menus: bool,
}

/// One step of opening the map editor.
#[derive(Debug, Clone, Copy, PartialEq, Eq)]
pub enum EditorStep {
    /// The editor is open.
    Done,
    /// Open the editor on a new map (from the menus).
    EditNewMap,
    /// Go back to the main menu first.
    BackToMainMenu,
    /// Nothing to do until the module stack changes.
    Wait,
}

/// Whether some module on the stack is a map editor.
pub open spec fn editor_open(modules: Seq<ModuleClass>) -> bool {
    exists|i: int| 0 <= i < modules.len() && (#[trigger] modules[i]).is_editor
}

/// Decides the next step of opening the map editor from the module stack
/// (bottom first): done when an editor is on the stack; otherwise a new map
/// from the menus when the menus are on top, a return to the main menu when
/// another module is on top, and waiting when the stack is empty.
pub fn open_map_editor_step(modules: &[ModuleClass]) -> (r: EditorStep)
    ensures
        editor_open(modules@) ==> r == EditorStep::Done,
        !editor_open(modules@) ==> r == if modules@.len() == 0 {
            EditorStep::Wait
        } else if modules@.last().is_menus {
            EditorStep::EditNewMap
        } else {
            EditorStep::BackToMainMenu
        },
{
    let mut i: usize = 0;
    while i < modules.len()
        invariant
            i <= modules@.len(),
            forall|k: int| 0 <= k < i ==> !(#[trigger] modules@[k]).is_editor,
        decreases modules.len() - i,
    {
        if modules[i].is_editor {
            return EditorStep::Done;
        }
        i = i + 1;
    }
    if modules.len() == 0 {
        EditorStep::Wait
    } else if modules[modules.len() - 1].is_menus {
        EditorStep::EditNewMap
    } else {
        EditorStep::BackToMainMenu
    }
}

/// The first map editor on the module stack.
pub fn get_map_editor(modules: &[ModuleClass]) -> (r: Option<usize>)
    ensures
        match r {
            Some(i) => i < modules@.len() && modules@[i as int].is_editor && forall|k: int|
                0 <= k < i ==> !(#[trigger] modules@[k]).is_editor,
            None => !editor_open(modules@),
        },
{
    let mut i: usize = 0;
    while i < modules.len()
        invariant
            i <= modules@.len(),
            forall|k: int| 0 <= k < i ==> !(#[trigger] modules@[k]).is_editor,
        decreases modules.len() - i,
    {
        if modules[i].is_editor {
            return Some(i);
        }
        i = i + 1;
    }
    None
}

/// A custom model file that the client writes to disk before loading it.
#[derive(Debug, Clone)]
pub struct CustomObjectFile {
    pub hash: ContentHash,
    /// The name of the file: the hash in hexadecimal, then `.Block.Gbx` or
    /// `.Item.Gbx`.
    pub file_name: Vec<u8>,
    pub is_block: bool,
}

/// `.Block.Gbx`.
pub open spec fn block_extension() -> Seq<u8> {
    seq![0x2eu8, 0x42u8, 0x6cu8, 0x6fu8, 0x63u8, 0x6bu8, 0x2eu8, 0x47u8, 0x62u8, 0x78u8]
}

/// `.Item.Gbx`.
pub open spec fn item_extension() -> Seq<u8> {
    seq![0x2eu8, 0x49u8, 0x74u8, 0x65u8, 0x6du8, 0x2eu8, 0x47u8, 0x62u8, 0x78u8]
}

/// The file written for a custom model with the given bytes.
pub open spec fn custom_file_ok(f: CustomObjectFile, bytes: Seq<u8>, is_block: bool) -> bool {
    &&& f.hash.bytes@ == blake3_hash(bytes)
    &&& f.is_block == is_block
    &&& f.file_name@ == hex_spec(f.hash.bytes@) + if is_block {
        block_extension()
    } else {
        item_extension()
    }
}

fn custom_file(bytes: &[u8], is_block: bool) -> (r: CustomObjectFile)
    ensures
        custom_file_ok(r, bytes@, is_block),
{
    let h = hash(bytes);
    let mut file_name = h.to_hex();
    let ext: Vec<u8> = if is_block {
        vec![0x2eu8, 0x42, 0x6c, 0x6f, 0x63, 0x6b, 0x2e, 0x47, 0x62, 0x78]
    } else {
        vec![0x2eu8, 0x49, 0x74, 0x65, 0x6d, 0x2e, 0x47, 0x62, 0x78]
    };
    crate::code::push_all(&mut file_name, ext.as_slice());
    CustomObjectFile { hash: h, file_name, is_block }
}

/// The files of the custom models of a map, custom blocks first, each named
/// after the hash of its bytes.
pub fn custom_object_files(desc: &MapDesc) -> (r: Vec<CustomObjectFile>)
    ensures
        r@.len() == desc.custom_blocks@.len() + desc.custom_items@.len(),
        forall|k: int|
            0 <= k < desc.custom_blocks@.len() ==> custom_file_ok(
                #[trigger] r@[k],
                desc.custom_blocks@[k].bytes@,
                true,
            ),
        forall|k: int|
            0 <= k < desc.custom_items@.len() ==> custom_file_ok(
                #[trigger] r@[desc.custom_blocks@.len() + k],
                desc.custom_items@[k].bytes@,
                false,
            ),
{
    let mut out: Vec<CustomObjectFile> = Vec::new();
    let mut i: usize = 0;
    while i < desc.custom_blocks.len()
        invariant
            i <= desc.custom_blocks@.len(),
            out@.len() == i,
            forall|k: int|
                0 <= k < i ==> custom_file_ok(#[trigger] out@[k], desc.custom_blocks@[k].bytes@, true),
        decreases desc.custom_blocks.len() - i,
    {
        out.push(custom_file(desc.custom_blocks[i].bytes.as_slice(), true));
        i = i + 1;
    }
    let nb = desc.custom_blocks.len();
    let mut j: usize = 0;
    while j < desc.custom_items.len()
        invariant
            nb == desc.custom_blocks@.len(),
            j <= desc.custom_items@.len(),
            out@.len() == nb + j,
            forall|k: int|
                0 <= k < nb ==> custom_file_ok(#[trigger] out@[k], desc.custom_blocks@[k].bytes@, true),
            forall|k: int|
                0 <= k < j ==> custom_file_ok(
                    #[trigger] out@[nb + k],
                    desc.custom_items@[k].bytes@,
                    false,
                ),
        decreases desc.custom_items.len() - j,
    {
        out.push(custom_file(desc.custom_items[j].bytes.as_slice(), false));
        j = j + 1;
    }
    out
}

/// The loaded models of one kind (block infos or item models): by game
/// identifier and by custom hash, each with a handle; later entries replace
/// earlier ones with the same key.
#[derive(Debug, Clone)]
pub struct ModelTable {
    pub game: Vec<(String, usize)>,
    pub custom: Vec<(ContentHash, usize)>,
}

/// The handle of the last entry with key `k`.
pub open spec fn last_value<K>(t: Seq<(K, usize)>, k: K) -> Option<usize>
    decreases t.len(),
{
    if t.len() == 0 {
        None
    } else if t.last().0 == k {
        Some(t.last().1)
    } else {
        last_value(t.drop_last(), k)
    }
}

impl ModelTable {
    pub open spec fn game_view(&self) -> Seq<(Seq<char>, usize)> {
        self.game@.map_values(|p: (String, usize)| (p.0@, p.1))
    }

    pub open spec fn custom_view(&self) -> Seq<(Seq<u8>, usize)> {
        self.custom@.map_values(|p: (ContentHash, usize)| (p.0.bytes@, p.1))
    }

    /// The handle of the model with key `k`.
    pub open spec fn resolve_spec(&self, k: ModelKey) -> Option<usize> {
        match k {
            ModelKey::Game(id) => last_value(self.game_view(), id),
            ModelKey::Custom(h) => last_value(self.custom_view(), h),
        }
    }

    /// The handle of the model `id`, if it was loaded.
    pub fn resolve(&self, id: &ModelId) -> (r: Option<usize>)
        ensures
            r == self.resolve_spec(id.key()),
    {
        match id {
            ModelId::Game { id: name } => {
                let ghost t = self.game_view();
                let mut i: usize = self.game.len();
                assert(t.take(i as int) =~= t);
                while i > 0
                    invariant
                        i <= self.game@.len(),
                        t == self.game_view(),
                        id.key() == ModelKey::Game(name@),
                        last_value(t, name@) == last_value(t.take(i as int), name@),
                    decreases i,
                {
                    let e = &self.game[i - 1];
                    assert(t.take(i as int).last() == (e.0@, e.1));
                    assert(t.take(i as int).drop_last() =~= t.take(i - 1));
                    if e.0 == *name {
                        return Some(e.1);
                    }
                    i = i - 1;
                }
                None
            },
            ModelId::Custom { hash } => {
                let ghost t = self.custom_view();
                let mut i: usize = self.custom.len();
                assert(t.take(i as int) =~= t);
                while i > 0
                    invariant
                        i <= self.custom@.len(),
                        t == self.custom_view(),
                        id.key() == ModelKey::Custom(hash.bytes@),
                        last_value(t, hash.bytes@) == last_value(t.take(i as int), hash.bytes@),
                    decreases i,
                {
                    let e = &self.custom[i - 1];
                    assert(t.take(i as int).last() == (e.0.bytes@, e.1));
                    assert(t.take(i as int).drop_last() =~= t.take(i - 1));
                    if e.0.same(hash) {
                        return Some(e.1);
                    }
                    i = i - 1;
                }
                None
            },
        }
    }
}

/// One action of recreating the server's map in the editor.
#[derive(Debug, Clone, Copy, PartialEq, Eq)]
pub enum EditorAction {
    /// Remove everything from the editor.
    RemoveAll,
    /// Switch air mode on, remembering the current mode.
    EnterAirMode,
    /// Switch air mode back to the remembered mode.
    RestoreAirMode,
    /// Place a block (when the editor allows it at that place).
    PlaceBlock { block_info: usize, coord: Vec3<u8>, dir: Direction, elem_color: ElemColor },
    /// Place a ghost block.
    PlaceGhostBlock { block_info: usize, coord: Vec3<u8>, dir: Direction, elem_color: ElemColor },
    /// Place a free block; position and rotation are `f32` bit patterns.
    PlaceFreeBlock {
        block_info: usize,
        position: Vec3<u32>,
        yaw: u32,
        pitch: u32,
        roll: u32,
        elem_color: ElemColor,
    },
    /// Place an item; positions and rotation are `f32` bit patterns.
    PlaceItem {
        item_model: usize,
        position: Vec3<u32>,
        yaw: u32,
        pitch: u32,
        roll: u32,
        pivot_position: Vec3<u32>,
        elem_color: ElemColor,
        anim_offset: PhaseOffset,
    },
}

/// Every block, ghost block and free block of the map has a loaded block
/// info, and every item a loaded item model.
pub open spec fn all_models_loaded(desc: MapDesc, blocks: ModelTable, items: ModelTable) -> bool {
    &&& forall|k: int|
        0 <= k < desc.blocks@.len() ==> blocks.resolve_spec(
            (#[trigger] desc.blocks@[k]).block_info_id.key(),
        ) is Some
    &&& forall|k: int|
        0 <= k < desc.ghost_blocks@.len() ==> blocks.resolve_spec(
            (#[trigger] desc.ghost_blocks@[k]).block_info_id.key(),
        ) is Some
    &&& forall|k: int|
        0 <= k < desc.free_blocks@.len() ==> blocks.resolve_spec(
            (#[trigger] desc.free_blocks@[k]).block_info_id.key(),
        ) is Some
    &&& forall|k: int|
        0 <= k < desc.items@.len() ==> items.resolve_spec(
            (#[trigger] desc.items@[k]).item_model_id.key(),
        ) is Some
}

/// The actions that recreate the map: clear the editor; in air mode, place
/// the blocks; restore the mode; place the ghost blocks, the free blocks and
/// the items, each in the order of the description.
pub open spec fn placement_plan_spec(desc: MapDesc, blocks: ModelTable, items: ModelTable) -> Seq<
    EditorAction,
> {
    seq![EditorAction::RemoveAll, EditorAction::EnterAirMode] + Seq::new(
        desc.blocks@.len(),
        |k: int|
            {
                let b = desc.blocks@[k];
                EditorAction::PlaceBlock {
                    block_info: blocks.resolve_spec(b.block_info_id.key()).unwrap(),
                    coord: b.coord,
                    dir: b.dir,
                    elem_color: b.elem_color,
                }
            },
    ) + seq![EditorAction::RestoreAirMode] + Seq::new(
        desc.ghost_blocks@.len(),
        |k: int|
            {
                let b = desc.ghost_blocks@[k];
                EditorAction::PlaceGhostBlock {
                    block_info: blocks.resolve_spec(b.block_info_id.key()).unwrap(),
                    coord: b.coord,
                    dir: b.dir,
                    elem_color: b.elem_color,
                }
            },
    ) + Seq::new(
        desc.free_blocks@.len(),
        |k: int|
            {
                let b = desc.free_blocks@[k];
                EditorAction::PlaceFreeBlock {
                    block_info: blocks.resolve_spec(b.block_info_id.key()).unwrap(),
                    position: b.position,
                    yaw: b.yaw,
                    pitch: b.pitch,
                    roll: b.roll,
                    elem_color: b.elem_color,
                }
            },
    ) + Seq::new(
        desc.items@.len(),
        |k: int|
            {
                let it = desc.items@[k];
                EditorAction::PlaceItem {
                    item_model: items.resolve_spec(it.item_model_id.key()).unwrap(),
                    position: it.position,
                    yaw: it.yaw,
                    pitch: it.pitch,
                    roll: it.roll,
                    pivot_position: it.pivot_position,
                    elem_color: it.elem_color,
                    anim_offset: it.anim_offset,
                }
            },
    )
}

/// The plan, action by action: it first removes everything and enters air
/// mode; then, for each block `k` of the description in order, it places that
/// block (its coordinates, direction and colour, with the handle that the block
/// table resolves for its model); then it restores the air mode; then it places
/// each ghost block, each free block and each item in order, each with its own
/// values and resolved model; and it does nothing else.
pub proof fn lemma_placement_plan_layout(desc: MapDesc, blocks: ModelTable, items: ModelTable)
    requires
        all_models_loaded(desc, blocks, items),
    ensures
        ({
            let p = placement_plan_spec(desc, blocks, items);
            let nb = desc.blocks@.len() as int;
            let ng = desc.ghost_blocks@.len() as int;
            let nf = desc.free_blocks@.len() as int;
            let ni = desc.items@.len() as int;
            &&& p.len() == 3 + nb + ng + nf + ni
            &&& p[0] == EditorAction::RemoveAll
            &&& p[1] == EditorAction::EnterAirMode
            &&& p[2 + nb] == EditorAction::RestoreAirMode
            &&& forall|k: int|
                0 <= k < nb ==> (blocks.resolve_spec((#[trigger] desc.blocks@[k]).block_info_id.key())
                    matches Some(h) && p[2 + k] == EditorAction::PlaceBlock {
                    block_info: h,
                    coord: desc.blocks@[k].coord,
                    dir: desc.blocks@[k].dir,
                    elem_color: desc.blocks@[k].elem_color,
                })
            &&& forall|k: int|
                0 <= k < ng ==> (blocks.resolve_spec(
                    (#[trigger] desc.ghost_blocks@[k]).block_info_id.key(),
                ) matches Some(h) && p[3 + nb + k] == EditorAction::PlaceGhostBlock {
                    block_info: h,
                    coord: desc.ghost_blocks@[k].coord,
                    dir: desc.ghost_blocks@[k].dir,
                    elem_color: desc.ghost_blocks@[k].elem_color,
                })
            &&& forall|k: int|
                0 <= k < nf ==> (blocks.resolve_spec(
                    (#[trigger] desc.free_blocks@[k]).block_info_id.key(),
                ) matches Some(h) && p[3 + nb + ng + k] == EditorAction::PlaceFreeBlock {
                    block_info: h,
                    position: desc.free_blocks@[k].position,
                    yaw: desc.free_blocks@[k].yaw,
                    pitch: desc.free_blocks@[k].pitch,
                    roll: desc.free_blocks@[k].roll,
                    elem_color: desc.free_blocks@[k].elem_color,
                })
            &&& forall|k: int|
                0 <= k < ni ==> (items.resolve_spec((#[trigger] desc.items@[k]).item_model_id.key())
                    matches Some(h) && p[3 + nb + ng + nf + k] == EditorAction::PlaceItem {
                    item_model: h,
                    position: desc.items@[k].position,
                    yaw: desc.items@[k].yaw,
                    pitch: desc.items@[k].pitch,
                    roll: desc.items@[k].roll,
                    pivot_position: desc.items@[k].pivot_position,
                    elem_color: desc.items@[k].elem_color,
                    anim_offset: desc.items@[k].anim_offset,
                })
        }),
{
    let p = placement_plan_spec(desc, blocks, items);
    let nb = desc.blocks@.len() as int;
    let ng = desc.ghost_blocks@.len() as int;
    let nf = desc.free_blocks@.len() as int;
    let ni = desc.items@.len() as int;
    assert forall|k: int| 0 <= k < nb implies (blocks.resolve_spec(
        (#[trigger] desc.blocks@[k]).block_info_id.key(),
    ) matches Some(h) && p[2 + k] == EditorAction::PlaceBlock {
        block_info: h,
        coord: desc.blocks@[k].coord,
        dir: desc.blocks@[k].dir,
        elem_color: desc.blocks@[k].elem_color,
    }) by {
        assert(p[2 + k] == p.subrange(0, 2 + nb)[2 + k]);
    }
    assert forall|k: int| 0 <= k < ng implies (blocks.resolve_spec(
        (#[trigger] desc.ghost_blocks@[k]).block_info_id.key(),
    ) matches Some(h) && p[3 + nb + k] == EditorAction::PlaceGhostBlock {
        block_info: h,
        coord: desc.ghost_blocks@[k].coord,
        dir: desc.ghost_blocks@[k].dir,
        elem_color: desc.ghost_blocks@[k].elem_color,
    }) by {
    }
    assert forall|k: int| 0 <= k < nf implies (blocks.resolve_spec(
        (#[trigger] desc.free_blocks@[k]).block_info_id.key(),
    ) matches Some(h) && p[3 + nb + ng + k] == EditorAction::PlaceFreeBlock {
        block_info: h,
        position: desc.free_blocks@[k].position,
        yaw: desc.free_blocks@[k].yaw,
        pitch: desc.free_blocks@[k].pitch,
        roll: desc.free_blocks@[k].roll,
        elem_color: desc.free_blocks@[k].elem_color,
    }) by {
    }
    assert forall|k: int| 0 <= k < ni implies (items.resolve_spec(
        (#[trigger] desc.items@[k]).item_model_id.key(),
    ) matches Some(h) && p[3 + nb + ng + nf + k] == EditorAction::PlaceItem {
        item_model: h,
        position: desc.items@[k].position,
        yaw: desc.items@[k].yaw,
        pitch: desc.items@[k].pitch,
        roll: desc.items@[k].roll,
        pivot_position: desc.items@[k].pivot_position,
        elem_color: desc.items@[k].elem_color,
        anim_offset: desc.items@[k].anim_offset,
    }) by {
    }
}

/// The actions that recreate the server's map in the editor (see
/// `placement_plan_spec`).
pub fn placement_plan(desc: &MapDesc, block_infos: &ModelTable, item_models: &ModelTable) -> (r: Vec<
    EditorAction,
>)
    requires
        all_models_loaded(*desc, *block_infos, *item_models),
    ensures
        r@ == placement_plan_spec(*desc, *block_infos, *item_models),
{
    let mut plan: Vec<EditorAction> = Vec::new();
    plan.push(EditorAction::RemoveAll);
    plan.push(EditorAction::EnterAirMode);
    let ghost p0 = plan@;
    let mut i: usize = 0;
    while i < desc.blocks.len()
        invariant
            i <= desc.blocks@.len(),
            all_models_loaded(*desc, *block_infos, *item_models),
            plan@ == p0 + Seq::new(
                i as nat,
                |k: int|
                    {
                        let b = desc.blocks@[k];
                        EditorAction::PlaceBlock {
                            block_info: block_infos.resolve_spec(b.block_info_id.key()).unwrap(),
                            coord: b.coord,
                            dir: b.dir,
                            elem_color: b.elem_color,
                        }
                    },
            ),
        decreases desc.blocks.len() - i,
    {
        let b = &desc.blocks[i];
        assert(block_infos.resolve_spec(desc.blocks@[i as int].block_info_id.key()) is Some);
        let block_info = block_infos.resolve(&b.block_info_id).unwrap();
        let ghost before = plan@;
        plan.push(
            EditorAction::PlaceBlock { block_info, coord: b.coord, dir: b.dir, elem_color: b.elem_color },
        );
        proof {
            let f = |k: int|
                {
                    let b = desc.blocks@[k];
                    EditorAction::PlaceBlock {
                        block_info: block_infos.resolve_spec(b.block_info_id.key()).unwrap(),
                        coord: b.coord,
                        dir: b.dir,
                        elem_color: b.elem_color,
                    }
                };
            assert(Seq::new((i + 1) as nat, f) =~= Seq::new(i as nat, f).push(f(i as int)));
            assert(plan@ =~= p0 + Seq::new((i + 1) as nat, f));
        }
        i = i + 1;
    }
    plan.push(EditorAction::RestoreAirMode);
    let ghost p1 = plan@;
    let mut j: usize = 0;
    while j < desc.ghost_blocks.len()
        invariant
            j <= desc.ghost_blocks@.len(),
            all_models_loaded(*desc, *block_infos, *item_models),
            plan@ == p1 + Seq::new(
                j as nat,
                |k: int|
                    {
                        let b = desc.ghost_blocks@[k];
                        EditorAction::PlaceGhostBlock {
                            block_info: block_infos.resolve_spec(b.block_info_id.key()).unwrap(),
                            coord: b.coord,
                            dir: b.dir,
                            elem_color: b.elem_color,
                        }
                    },
            ),
        decreases desc.ghost_blocks.len() - j,
    {
        let b = &desc.ghost_blocks[j];
        assert(block_infos.resolve_spec(desc.ghost_blocks@[j as int].block_info_id.key()) is Some);
        let block_info = block_infos.resolve(&b.block_info_id).unwrap();
        plan.push(
            EditorAction::PlaceGhostBlock {
                block_info,
                coord: b.coord,
                dir: b.dir,
                elem_color: b.elem_color,
            },
        );
        proof {
            let f = |k: int|
                {
                    let b = desc.ghost_blocks@[k];
                    EditorAction::PlaceGhostBlock {
                        block_info: block_infos.resolve_spec(b.block_info_id.key()).unwrap(),
                        coord: b.coord,
                        dir: b.dir,
                        elem_color: b.elem_color,
                    }
                };
            assert(Seq::new((j + 1) as nat, f) =~= Seq::new(j as nat, f).push(f(j as int)));
            assert(plan@ =~= p1 + Seq::new((j + 1) as nat, f));
        }
        j = j + 1;
    }
    let ghost p2 = plan@;
    let mut m: usize = 0;
    while m < desc.free_blocks.len()
        invariant
            m <= desc.free_blocks@.len(),
            all_models_loaded(*desc, *block_infos, *item_models),
            plan@ == p2 + Seq::new(
                m as nat,
                |k: int|
                    {
                        let b = desc.free_blocks@[k];
                        EditorAction::PlaceFreeBlock {
                            block_info: block_infos.resolve_spec(b.block_info_id.key()).unwrap(),
                            position: b.position,
                            yaw: b.yaw,
                            pitch: b.pitch,
                            roll: b.roll,
                            elem_color: b.elem_color,
                        }
                    },
            ),
        decreases desc.free_blocks.len() - m,
    {
        let b = &desc.free_blocks[m];
        assert(block_infos.resolve_spec(desc.free_blocks@[m as int].block_info_id.key()) is Some);
        let block_info = block_infos.resolve(&b.block_info_id).unwrap();
        plan.push(
            EditorAction::PlaceFreeBlock {
                block_info,
                position: b.position,
                yaw: b.yaw,
                pitch: b.pitch,
                roll: b.roll,
                elem_color: b.elem_color,
            },
        );
        proof {
            let f = |k: int|
                {
                    let b = desc.free_blocks@[k];
                    EditorAction::PlaceFreeBlock {
                        block_info: block_infos.resolve_spec(b.block_info_id.key()).unwrap(),
                        position: b.position,
                        yaw: b.yaw,
                        pitch: b.pitch,
                        roll: b.roll,
                        elem_color: b.elem_color,
                    }
                };
            assert(Seq::new((m + 1) as nat, f) =~= Seq::new(m as nat, f).push(f(m as int)));
            assert(plan@ =~= p2 + Seq::new((m + 1) as nat, f));
        }
        m = m + 1;
    }
    let ghost p3 = plan@;
    let mut n: usize = 0;
    while n < desc.items.len()
        invariant
            n <= desc.items@.len(),
            all_models_loaded(*desc, *block_infos, *item_models),
            plan@ == p3 + Seq::new(
                n as nat,
                |k: int|
                    {
                        let it = desc.items@[k];
                        EditorAction::PlaceItem {
                            item_model: item_models.resolve_spec(it.item_model_id.key()).unwrap(),
                            position: it.position,
                            yaw: it.yaw,
                            pitch: it.pitch,
                            roll: it.roll,
                            pivot_position: it.pivot_position,
                            elem_color: it.elem_color,
                            anim_offset: it.anim_offset,
                        }
                    },
            ),
        decreases desc.items.len() - n,
    {
        let it = &desc.items[n];
        assert(item_models.resolve_spec(desc.items@[n as int].item_model_id.key()) is Some);
        let item_model = item_models.resolve(&it.item_model_id).unwrap();
        plan.push(
            EditorAction::PlaceItem {
                item_model,
                position: it.position,
                yaw: it.yaw,
                pitch: it.pitch,
                roll: it.roll,
                pivot_position: it.pivot_position,
                elem_color: it.elem_color,
                anim_offset: it.anim_offset,
            },
        );
        proof {
            let f = |k: int|
                {
                    let it = desc.items@[k];
                    EditorAction::PlaceItem {
                        item_model: item_models.resolve_spec(it.item_model_id.key()).unwrap(),
                        position: it.position,
                        yaw: it.yaw,
                        pitch: it.pitch,
                        roll: it.roll,
                        pivot_position: it.pivot_position,
                        elem_color: it.elem_color,
                        anim_offset: it.anim_offset,
                    }
                };
            assert(Seq::new((n + 1) as nat, f) =~= Seq::new(n as nat, f).push(f(n as int)));
            assert(plan@ =~= p3 + Seq::new((n + 1) as nat, f));
        }
        n = n + 1;
    }
    plan
}

} // verus!
