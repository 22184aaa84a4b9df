//! Building the description of a map from what was read from its file: the
//! embedded custom models and the placed blocks and items.
use vstd::prelude::*;
use vstd::string::StringExecFns;
use vstd::utf8::encode_utf8;
use crate::desc::{
    blake3_hash, hash, BlockDesc, CustomBlockDesc, CustomItemDesc, Direction, ElemColor,
    FreeBlockDesc, GhostBlockDesc, ContentHash, ItemDesc, MapDesc, ModelId, ModelKey, PhaseOffset, Vec3,
};

verus! {

/// A file embedded in the map (a custom block or item model).
#[derive(Debug, Clone)]
pub struct EmbeddedFile {
    pub name: String,
    pub bytes: Vec<u8>,
}

/// The embedded objects of a map: their identifiers and the files of the
/// embedded archive, in archive order.
#[derive(Debug, Clone)]
pub struct EmbeddedObjects {
    pub ids: Vec<String>,
    pub files: Vec<EmbeddedFile>,
}

/// How a block of the map file is placed.
#[derive(Debug, Clone)]
pub enum GbxBlockKind {
    Normal { coord: Vec3<u8>, dir: Direction, is_ghost: bool, is_air_variant: bool },
    Free { position: Vec3<u32>, yaw: u32, pitch: u32, roll: u32 },
}

/// A block of the map file, by the identifier of its block info.
#[derive(Debug, Clone)]
pub struct GbxBlock {
    pub info_id: String,
    pub elem_color: ElemColor,
    pub kind: GbxBlockKind,
}

/// An item of the map file, by the identifier of its model.
#[derive(Debug, Clone)]
pub struct GbxItem {
    pub model_id: String,
    pub position: Vec3<u32>,
    pub yaw: u32,
    pub pitch: u32,
    pub roll: u32,
    pub pivot_position: Vec3<u32>,
    pub elem_color: ElemColor,
    pub anim_offset: PhaseOffset,
}

/// `Block.Gbx`.
pub open spec fn block_suffix() -> Seq<u8> {
    seq![0x42u8, 0x6cu8, 0x6fu8, 0x63u8, 0x6bu8, 0x2eu8, 0x47u8, 0x62u8, 0x78u8]
}

/// `Item.Gbx`.
pub open spec fn item_suffix() -> Seq<u8> {
    seq![0x49u8, 0x74u8, 0x65u8, 0x6du8, 0x2eu8, 0x47u8, 0x62u8, 0x78u8]
}

pub open spec fn ends_with(s: Seq<u8>, suffix: Seq<u8>) -> bool {
    s.len() >= suffix.len() && s.skip(s.len() - suffix.len()) == suffix
}

/// A custom block model file: its name ends with `Block.Gbx`.
pub open spec fn is_block_file(f: EmbeddedFile) -> bool {
    ends_with(encode_utf8(f.name@), block_suffix())
}

/// A custom item model file: its name ends with `Item.Gbx` (and not with `Block.Gbx`).
pub open spec fn is_item_file(f: EmbeddedFile) -> bool {
    !is_block_file(f) && ends_with(encode_utf8(f.name@), item_suffix())
}

/// The identifier of the custom block whose embedded identifier is `id`.
pub open spec fn custom_block_id(id: Seq<char>) -> Seq<char> {
    id + "_CustomBlock"@
}

/// The (identifier, hash) pairs of the custom blocks among the first `n` files.
pub open spec fn block_entries(files: Seq<EmbeddedFile>, ids: Seq<String>, n: int) -> Seq<
    (Seq<char>, Seq<u8>),
>
    decreases n,
{
    if n <= 0 {
        seq![]
    } else {
        block_entries(files, ids, n - 1) + if is_block_file(files[n - 1]) {
            seq![(custom_block_id(ids[n - 1]@), blake3_hash(files[n - 1].bytes@))]
        } else {
            seq![]
        }
    }
}

/// The (identifier, hash) pairs of the custom items among the first `n` files.
pub open spec fn item_entries(files: Seq<EmbeddedFile>, ids: Seq<String>, n: int) -> Seq<
    (Seq<char>, Seq<u8>),
>
    decreases n,
{
    if n <= 0 {
        seq![]
    } else {
        item_entries(files, ids, n - 1) + if is_item_file(files[n - 1]) {
            seq![(ids[n - 1]@, blake3_hash(files[n - 1].bytes@))]
        } else {
            seq![]
        }
    }
}

/// The bytes of the files among the first `n` that satisfy `keep`.
pub open spec fn kept_bytes(files: Seq<EmbeddedFile>, n: int, blocks: bool) -> Seq<Seq<u8>>
    decreases n,
{
    if n <= 0 {
        seq![]
    } else {
        kept_bytes(files, n - 1, blocks) + if (blocks && is_block_file(files[n - 1])) || (!blocks
            && is_item_file(files[n - 1])) {
            seq![files[n - 1].bytes@]
        } else {
            seq![]
        }
    }
}

/// The hash of the last entry with identifier `key` (a later entry for the
/// same identifier replaces an earlier one).
pub open spec fn lookup_last(entries: Seq<(Seq<char>, Seq<u8>)>, key: Seq<char>) -> Option<Seq<u8>>
    decreases entries.len(),
{
    if entries.len() == 0 {
        None
    } else if entries.last().0 == key {
        Some(entries.last().1)
    } else {
        lookup_last(entries.drop_last(), key)
    }
}

/// The model of a block or item with identifier `id`: the custom model of
/// that identifier, if there is one, else the game's model `id`.
pub open spec fn model_for(entries: Seq<(Seq<char>, Seq<u8>)>, id: Seq<char>) -> ModelKey {
    match lookup_last(entries, id) {
        Some(h) => ModelKey::Custom(h),
        None => ModelKey::Game(id),
    }
}

pub open spec fn is_solid(b: GbxBlock) -> bool {
    b.kind matches GbxBlockKind::Normal { is_ghost, .. } && !is_ghost
}

pub open spec fn is_ghost(b: GbxBlock) -> bool {
    b.kind matches GbxBlockKind::Normal { is_ghost, .. } && is_ghost
}

pub open spec fn is_free(b: GbxBlock) -> bool {
    b.kind is Free
}

/// The blocks among `bs` of one kind (solid, ghost or free), in order.
pub open spec fn blocks_of_kind(bs: Seq<GbxBlock>, kind: int) -> Seq<GbxBlock>
    decreases bs.len(),
{
    if bs.len() == 0 {
        seq![]
    } else {
        let b = bs.last();
        let keep = if kind == 0 {
            is_solid(b)
        } else if kind == 1 {
            is_ghost(b)
        } else {
            is_free(b)
        };
        blocks_of_kind(bs.drop_last(), kind) + if keep {
            seq![b]
        } else {
            seq![]
        }
    }
}

/// Whether a block is a normal block with its ghost flag set (whatever else
/// it is, an air variant or not).
pub open spec fn has_ghost_flag(b: GbxBlock) -> bool {
    match b.kind {
        GbxBlockKind::Normal { is_ghost, .. } => is_ghost,
        GbxBlockKind::Free { .. } => false,
    }
}

/// The kinds are read from the block's flags alone: the solid blocks are the
/// normal blocks without the ghost flag, the ghost blocks the normal blocks
/// with it (air variant or not), and the free blocks the free ones; each kind
/// keeps the order of the map.
pub proof fn lemma_blocks_of_kind_by_flags(bs: Seq<GbxBlock>)
    ensures
        blocks_of_kind(bs, 0) == bs.filter(
            |b: GbxBlock| b.kind is Normal && !has_ghost_flag(b),
        ),
        blocks_of_kind(bs, 1) == bs.filter(|b: GbxBlock| has_ghost_flag(b)),
        blocks_of_kind(bs, 2) == bs.filter(|b: GbxBlock| b.kind is Free),
    decreases bs.len(),
{
    reveal(Seq::filter);
    if bs.len() > 0 {
        lemma_blocks_of_kind_by_flags(bs.drop_last());
    }
}

/// Every block of a map is of exactly one kind, so the map description has
/// one description for each block: the solid, ghost and free blocks together
/// are as many as the blocks.
pub proof fn lemma_blocks_partition(bs: Seq<GbxBlock>)
    ensures
        blocks_of_kind(bs, 0).len() + blocks_of_kind(bs, 1).len() + blocks_of_kind(bs, 2).len()
            == bs.len(),
    decreases bs.len(),
{
    if bs.len() > 0 {
        lemma_blocks_partition(bs.drop_last());
    }
}

/// `d` describes the solid block `b`.
pub open spec fn block_desc_of(d: BlockDesc, b: GbxBlock, e: Seq<(Seq<char>, Seq<u8>)>) -> bool {
    &&& d.block_info_id.key() == model_for(e, b.info_id@)
    &&& d.elem_color == b.elem_color
    &&& b.kind matches GbxBlockKind::Normal { coord, dir, is_air_variant, .. } && d.coord == coord
        && d.dir == dir && d.is_air_variant == is_air_variant
}

/// `d` describes the ghost block `b`.
pub open spec fn ghost_desc_of(d: GhostBlockDesc, b: GbxBlock, e: Seq<(Seq<char>, Seq<u8>)>) -> bool {
    &&& d.block_info_id.key() == model_for(e, b.info_id@)
    &&& d.elem_color == b.elem_color
    &&& b.kind matches GbxBlockKind::Normal { coord, dir, is_air_variant, .. } && d.coord == coord
        && d.dir == dir && d.is_air_variant == is_air_variant
}

/// `d` describes the free block `b`.
pub open spec fn free_desc_of(d: FreeBlockDesc, b: GbxBlock, e: Seq<(Seq<char>, Seq<u8>)>) -> bool {
    &&& d.block_info_id.key() == model_for(e, b.info_id@)
    &&& d.elem_color == b.elem_color
    &&& b.kind matches GbxBlockKind::Free { position, yaw, pitch, roll } && d.position == position
        && d.yaw == yaw && d.pitch == pitch && d.roll == roll
}

/// `d` describes the item `it`.
pub open spec fn item_desc_of(d: ItemDesc, it: GbxItem, e: Seq<(Seq<char>, Seq<u8>)>) -> bool {
    &&& d.item_model_id.key() == model_for(e, it.model_id@)
    &&& d.position == it.position
    &&& d.yaw == it.yaw
    &&& d.pitch == it.pitch
    &&& d.roll == it.roll
    &&& d.pivot_position == it.pivot_position
    &&& d.elem_color == it.elem_color
    &&& d.anim_offset == it.anim_offset
}

/// Every embedded custom model file has an embedded identifier.
pub open spec fn ids_cover(objects: EmbeddedObjects) -> bool {
    forall|i: int|
        0 <= i < objects.files@.len() && (is_block_file(objects.files@[i]) || is_item_file(
            objects.files@[i],
        )) ==> i < objects.ids@.len()
}

fn ends_with_bytes(s: &[u8], suffix: &[u8]) -> (r: bool)
    ensures
        r == ends_with(s@, suffix@),
{
    if s.len() < suffix.len() {
        return false;
    }
    let n = s.len();
    let start = n - suffix.len();
    let mut i: usize = 0;
    while i < suffix.len()
        invariant
            n == s@.len(),
            start + suffix@.len() == s@.len(),
            i <= suffix@.len(),
            forall|k: int| 0 <= k < i ==> s@[start + k] == suffix@[k],
        decreases suffix.len() - i,
    {
        if s[start + i] != suffix[i] {
            assert(s@.skip(start as int)[i as int] != suffix@[i as int]);
            return false;
        }
        i = i + 1;
    }
    assert(s@.skip(start as int) =~= suffix@);
    true
}

/// Looks up the hash of the last entry with identifier `key`.
fn lookup(entries: &Vec<(String, ContentHash)>, key: &String) -> (r: Option<ContentHash>)
    ensures
        match (r, lookup_last(entries@.map_values(|p: (String, ContentHash)| (p.0@, p.1.bytes@)), key@)) {
            (Some(h), Some(s)) => h.bytes@ == s,
            (None, None) => true,
            _ => false,
        },
{
    let ghost es = entries@.map_values(|p: (String, ContentHash)| (p.0@, p.1.bytes@));
    let mut i: usize = entries.len();
    assert(es.take(i as int) =~= es);
    while i > 0
        invariant
            i <= entries@.len(),
            es == entries@.map_values(|p: (String, ContentHash)| (p.0@, p.1.bytes@)),
            lookup_last(es, key@) == lookup_last(es.take(i as int), key@),
        decreases i,
    {
        let e = &entries[i - 1];
        assert(es.take(i as int).last() == (e.0@, e.1.bytes@));
        assert(es.take(i as int).drop_last() =~= es.take(i - 1));
        if e.0 == *key {
            return Some(e.1);
        }
        i = i - 1;
    }
    None
}

fn model_id(entries: &Vec<(String, ContentHash)>, id: &String) -> (r: ModelId)
    ensures
        r.key() == model_for(entries@.map_values(|p: (String, ContentHash)| (p.0@, p.1.bytes@)), id@),
{
    match lookup(entries, id) {
        Some(hash) => ModelId::Custom { hash },
        None => ModelId::Game { id: id.clone() },
    }
}

/// The custom model tables and files of the embedded objects.
pub struct CustomModels {
    pub block_hashes: Vec<(String, ContentHash)>,
    pub item_hashes: Vec<(String, ContentHash)>,
    pub custom_blocks: Vec<CustomBlockDesc>,
    pub custom_items: Vec<CustomItemDesc>,
}

pub open spec fn entries_view(v: Seq<(String, ContentHash)>) -> Seq<(Seq<char>, Seq<u8>)> {
    v.map_values(|p: (String, ContentHash)| (p.0@, p.1.bytes@))
}

pub open spec fn bytes_view_blocks(v: Seq<CustomBlockDesc>) -> Seq<Seq<u8>> {
    v.map_values(|c: CustomBlockDesc| c.bytes@)
}

pub open spec fn bytes_view_items(v: Seq<CustomItemDesc>) -> Seq<Seq<u8>> {
    v.map_values(|c: CustomItemDesc| c.bytes@)
}

/// Hashes the embedded files and sorts them into custom blocks (files named
/// `…Block.Gbx`, identified as `<id>_CustomBlock`) and custom items (files
/// named `…Item.Gbx`, identified as `<id>`); other files are left out.
pub fn custom_models(objects: &EmbeddedObjects) -> (r: CustomModels)
    requires
        ids_cover(*objects),
    ensures
        entries_view(r.block_hashes@) == block_entries(
            objects.files@,
            objects.ids@,
            objects.files@.len() as int,
        ),
        entries_view(r.item_hashes@) == item_entries(
            objects.files@,
            objects.ids@,
            objects.files@.len() as int,
        ),
        bytes_view_blocks(r.custom_blocks@) == kept_bytes(
            objects.files@,
            objects.files@.len() as int,
            true,
        ),
        bytes_view_items(r.custom_items@) == kept_bytes(
            objects.files@,
            objects.files@.len() as int,
            false,
        ),
{
    let block_suffix_bytes = vec![0x42u8, 0x6c, 0x6f, 0x63, 0x6b, 0x2e, 0x47, 0x62, 0x78];
    let item_suffix_bytes = vec![0x49u8, 0x74, 0x65, 0x6d, 0x2e, 0x47, 0x62, 0x78];
    let mut block_hashes: Vec<(String, ContentHash)> = Vec::new();
    let mut item_hashes: Vec<(String, ContentHash)> = Vec::new();
    let mut custom_blocks: Vec<CustomBlockDesc> = Vec::new();
    let mut custom_items: Vec<CustomItemDesc> = Vec::new();
    let files = &objects.files;
    let ids = &objects.ids;
    let mut i: usize = 0;
    while i < files.len()
        invariant
            i <= files@.len(),
            files == &objects.files,
            ids == &objects.ids,
            ids_cover(*objects),
            block_suffix_bytes@ == block_suffix(),
            item_suffix_bytes@ == item_suffix(),
            entries_view(block_hashes@) == block_entries(files@, ids@, i as int),
            entries_view(item_hashes@) == item_entries(files@, ids@, i as int),
            bytes_view_blocks(custom_blocks@) == kept_bytes(files@, i as int, true),
            bytes_view_items(custom_items@) == kept_bytes(files@, i as int, false),
        decreases files.len() - i,
    {
        let file = &files[i];
        let h = hash(file.bytes.as_slice());
        let name_bytes = file.name.as_str().as_bytes();
        if ends_with_bytes(name_bytes, block_suffix_bytes.as_slice()) {
            assert(is_block_file(files@[i as int]));
            let id = ids[i].clone().concat("_CustomBlock");
            let ghost before = block_hashes@;
            let ghost before_b = custom_blocks@;
            block_hashes.push((id, h));
            custom_blocks.push(CustomBlockDesc { bytes: file.bytes.clone() });
            assert(entries_view(block_hashes@) =~= entries_view(before) + seq![
                (custom_block_id(ids@[i as int]@), blake3_hash(files@[i as int].bytes@)),
            ]);
            assert(bytes_view_blocks(custom_blocks@) =~= bytes_view_blocks(before_b) + seq![
                files@[i as int].bytes@,
            ]);
        } else if ends_with_bytes(name_bytes, item_suffix_bytes.as_slice()) {
            assert(is_item_file(files@[i as int]));
            let id = ids[i].clone();
            let ghost before = item_hashes@;
            let ghost before_i = custom_items@;
            item_hashes.push((id, h));
            custom_items.push(CustomItemDesc { bytes: file.bytes.clone() });
            assert(entries_view(item_hashes@) =~= entries_view(before) + seq![
                (ids@[i as int]@, blake3_hash(files@[i as int].bytes@)),
            ]);
            assert(bytes_view_items(custom_items@) =~= bytes_view_items(before_i) + seq![
                files@[i as int].bytes@,
            ]);
        } else {
            assert(!is_block_file(files@[i as int]) && !is_item_file(files@[i as int]));
        }
        i = i + 1;
    }
    CustomModels { block_hashes, item_hashes, custom_blocks, custom_items }
}

/// The entries of the zip archive `archive`, in archive order: each file's
/// name and its extracted bytes, each file opened with `by_index_decrypt` and
/// an empty password (which a file that is not encrypted does not use);
/// `None` when `zip::ZipArchive` cannot open the archive or read one of its
/// files.
pub uninterp spec fn zip_entries(archive: Seq<u8>) -> Option<Seq<(Seq<char>, Seq<u8>)>>;

/// The names and bytes of files.
pub open spec fn files_view(files: Seq<EmbeddedFile>) -> Seq<(Seq<char>, Seq<u8>)> {
    files.map_values(|f: EmbeddedFile| (f.name@, f.bytes@))
}

/// Opens the archive with `zip::ZipArchive::new` and reads each of its files
/// (`by_index_decrypt` with an empty password, `read_to_end`, `name`) in
/// archive order; the contract names the result, errors becoming `None`.
/// (`by_index` is not used: it panics on a file that is not encrypted but
/// carries an AES extra field.)
#[verifier::external_body]
fn unzip(archive: &[u8]) -> (r: Option<Vec<EmbeddedFile>>)
    ensures
        match (r, zip_entries(archive@)) {
            (Some(v), Some(s)) => files_view(v@) == s,
            (None, None) => true,
            _ => false,
        },
{
    let mut zip = zip::ZipArchive::new(std::io::Cursor::new(archive)).ok()?;
    let mut files = Vec::new();
    for i in 0..zip.len() {
        let mut file = zip.by_index_decrypt(i, b"").ok()?.ok()?;
        let mut bytes = Vec::new();
        std::io::Read::read_to_end(&mut file, &mut bytes).ok()?;
        files.push(EmbeddedFile { name: file.name().to_owned(), bytes });
    }
    Some(files)
}

/// The name of a custom model file: it ends with `Block.Gbx` or `Item.Gbx`.
pub open spec fn is_model_name(name: Seq<char>) -> bool {
    ends_with(encode_utf8(name), block_suffix()) || ends_with(encode_utf8(name), item_suffix())
}

/// Every custom model file among the entries has an identifier: its index is
/// below the number of identifiers.
pub open spec fn entries_have_ids(entries: Seq<(Seq<char>, Seq<u8>)>, n_ids: nat) -> bool {
    forall|i: int| 0 <= i < entries.len() && is_model_name(#[trigger] entries[i].0) ==> i < n_ids
}

/// The embedded objects of a map from their identifiers and the bytes of the
/// embedded zip archive: the archive's files, in archive order. `None` when
/// the archive cannot be read, or when a custom model file has no identifier.
pub fn embedded_objects(ids: Vec<String>, archive: &[u8]) -> (r: Option<EmbeddedObjects>)
    ensures
        match zip_entries(archive@) {
            None => r is None,
            Some(s) => if entries_have_ids(s, ids@.len()) {
                r matches Some(o) && o.ids@ == ids@ && files_view(o.files@) == s && ids_cover(o)
            } else {
                r is None
            },
        },
{
    let files = match unzip(archive) {
        Some(files) => files,
        None => {
            return None;
        },
    };
    let ghost s = files_view(files@);
    assert(zip_entries(archive@) == Some(s));
    let block_suffix_bytes: Vec<u8> = vec![0x42u8, 0x6c, 0x6f, 0x63, 0x6b, 0x2e, 0x47, 0x62, 0x78];
    let item_suffix_bytes: Vec<u8> = vec![0x49u8, 0x74, 0x65, 0x6d, 0x2e, 0x47, 0x62, 0x78];
    assert(block_suffix_bytes@ =~= block_suffix());
    assert(item_suffix_bytes@ =~= item_suffix());
    let mut i: usize = 0;
    while i < files.len()
        invariant
            i <= files@.len(),
            s == files_view(files@),
            block_suffix_bytes@ == block_suffix(),
            item_suffix_bytes@ == item_suffix(),
            forall|k: int| 0 <= k < i && is_model_name(#[trigger] s[k].0) ==> k < ids@.len(),
            zip_entries(archive@) == Some(s),
        decreases files.len() - i,
    {
        let name_bytes = files[i].name.as_str().as_bytes();
        assert(s[i as int].0 == files@[i as int].name@);
        if (ends_with_bytes(name_bytes, block_suffix_bytes.as_slice()) || ends_with_bytes(
            name_bytes,
            item_suffix_bytes.as_slice(),
        )) && i >= ids.len() {
            assert(is_model_name(files@[i as int].name@));
            assert(is_model_name(s[i as int].0));
            assert(!entries_have_ids(s, ids@.len()));
            return None;
        }
        i = i + 1;
    }
    let objects = EmbeddedObjects { ids, files };
    assert forall|k: int|
        0 <= k < objects.files@.len() && (is_block_file(objects.files@[k]) || is_item_file(
            objects.files@[k],
        )) implies k < objects.ids@.len() by {
        assert(s[k].0 == objects.files@[k].name@);
    }
    Some(objects)
}

/// The custom model tables of a map without embedded objects.
pub open spec fn no_entries() -> Seq<(Seq<char>, Seq<u8>)> {
    seq![]
}

/// The description of a map: the embedded custom models (when there are
/// embedded objects), then each block sorted into solid, ghost and free
/// blocks and each item, each with its model identified (a custom model when
/// the identifier names one, else the game's model).
pub fn build_map_desc(
    embedded: Option<EmbeddedObjects>,
    blocks: &Vec<GbxBlock>,
    items: &Vec<GbxItem>,
) -> (r: MapDesc)
    requires
        embedded matches Some(objects) ==> ids_cover(objects),
    ensures
        ({
            let (be, ie, cb, ci) = match embedded {
                Some(o) => (
                    block_entries(o.files@, o.ids@, o.files@.len() as int),
                    item_entries(o.files@, o.ids@, o.files@.len() as int),
                    kept_bytes(o.files@, o.files@.len() as int, true),
                    kept_bytes(o.files@, o.files@.len() as int, false),
                ),
                None => (no_entries(), no_entries(), seq![], seq![]),
            };
            let solid = blocks_of_kind(blocks@, 0);
            let ghosts = blocks_of_kind(blocks@, 1);
            let free = blocks_of_kind(blocks@, 2);
            &&& bytes_view_blocks(r.custom_blocks@) == cb
            &&& bytes_view_items(r.custom_items@) == ci
            &&& r.blocks@.len() == solid.len()
            &&& forall|k: int| 0 <= k < solid.len() ==> block_desc_of(#[trigger] r.blocks@[k], solid[k], be)
            &&& r.ghost_blocks@.len() == ghosts.len()
            &&& forall|k: int| 0 <= k < ghosts.len() ==> ghost_desc_of(#[trigger] r.ghost_blocks@[k], ghosts[k], be)
            &&& r.free_blocks@.len() == free.len()
            &&& forall|k: int| 0 <= k < free.len() ==> free_desc_of(#[trigger] r.free_blocks@[k], free[k], be)
            &&& r.items@.len() == items@.len()
            &&& forall|k: int| 0 <= k < items@.len() ==> item_desc_of(#[trigger] r.items@[k], items@[k], ie)
        }),
{
    let models = match embedded {
        Some(objects) => custom_models(&objects),
        None => {
            let m = CustomModels {
                block_hashes: Vec::new(),
                item_hashes: Vec::new(),
                custom_blocks: Vec::new(),
                custom_items: Vec::new(),
            };
            assert(entries_view(m.block_hashes@) =~= no_entries());
            assert(entries_view(m.item_hashes@) =~= no_entries());
            assert(bytes_view_blocks(m.custom_blocks@) =~= Seq::<Seq<u8>>::empty());
            assert(bytes_view_items(m.custom_items@) =~= Seq::<Seq<u8>>::empty());
            m
        },
    };
    let ghost be = entries_view(models.block_hashes@);
    let ghost ie = entries_view(models.item_hashes@);
    let mut solid_blocks: Vec<BlockDesc> = Vec::new();
    let mut ghost_blocks: Vec<GhostBlockDesc> = Vec::new();
    let mut free_blocks: Vec<FreeBlockDesc> = Vec::new();
    let mut i: usize = 0;
    while i < blocks.len()
        invariant
            i <= blocks@.len(),
            be == entries_view(models.block_hashes@),
            solid_blocks@.len() == blocks_of_kind(blocks@.take(i as int), 0).len(),
            forall|k: int|
                0 <= k < solid_blocks@.len() ==> block_desc_of(
                    #[trigger] solid_blocks@[k],
                    blocks_of_kind(blocks@.take(i as int), 0)[k],
                    be,
                ),
            ghost_blocks@.len() == blocks_of_kind(blocks@.take(i as int), 1).len(),
            forall|k: int|
                0 <= k < ghost_blocks@.len() ==> ghost_desc_of(
                    #[trigger] ghost_blocks@[k],
                    blocks_of_kind(blocks@.take(i as int), 1)[k],
                    be,
                ),
            free_blocks@.len() == blocks_of_kind(blocks@.take(i as int), 2).len(),
            forall|k: int|
                0 <= k < free_blocks@.len() ==> free_desc_of(
                    #[trigger] free_blocks@[k],
                    blocks_of_kind(blocks@.take(i as int), 2)[k],
                    be,
                ),
        decreases blocks.len() - i,
    {
        let block = &blocks[i];
        let ghost pre = blocks@.take(i as int);
        let ghost post = blocks@.take(i + 1);
        assert(post.drop_last() =~= pre);
        assert(post.last() == *block);
        let model = model_id(&models.block_hashes, &block.info_id);
        match &block.kind {
            GbxBlockKind::Normal { coord, dir, is_ghost, is_air_variant } => {
                if *is_ghost {
                    ghost_blocks.push(
                        GhostBlockDesc {
                            block_info_id: model,
                            coord: *coord,
                            dir: *dir,
                            is_air_variant: *is_air_variant,
                            elem_color: block.elem_color,
                        },
                    );
                } else {
                    solid_blocks.push(
                        BlockDesc {
                            block_info_id: model,
                            coord: *coord,
                            dir: *dir,
                            is_air_variant: *is_air_variant,
                            elem_color: block.elem_color,
                        },
                    );
                }
            },
            GbxBlockKind::Free { position, yaw, pitch, roll } => {
                free_blocks.push(
                    FreeBlockDesc {
                        block_info_id: model,
                        position: *position,
                        yaw: *yaw,
                        pitch: *pitch,
                        roll: *roll,
                        elem_color: block.elem_color,
                    },
                );
            },
        }
        assert(blocks_of_kind(post, 0) == blocks_of_kind(pre, 0) + if is_solid(*block) {
            seq![*block]
        } else {
            seq![]
        });
        assert(blocks_of_kind(post, 1) == blocks_of_kind(pre, 1) + if is_ghost(*block) {
            seq![*block]
        } else {
            seq![]
        });
        assert(blocks_of_kind(post, 2) == blocks_of_kind(pre, 2) + if is_free(*block) {
            seq![*block]
        } else {
            seq![]
        });
        i = i + 1;
    }
    assert(blocks@.take(i as int) =~= blocks@);
    let mut item_descs: Vec<ItemDesc> = Vec::new();
    let mut j: usize = 0;
    while j < items.len()
        invariant
            j <= items@.len(),
            ie == entries_view(models.item_hashes@),
            item_descs@.len() == j,
            forall|k: int| 0 <= k < j ==> item_desc_of(#[trigger] item_descs@[k], items@[k], ie),
        decreases items.len() - j,
    {
        let item = &items[j];
        let model = model_id(&models.item_hashes, &item.model_id);
        item_descs.push(
            ItemDesc {
                item_model_id: model,
                position: item.position,
                yaw: item.yaw,
                pitch: item.pitch,
                roll: item.roll,
                pivot_position: item.pivot_position,
                elem_color: item.elem_color,
                anim_offset: item.anim_offset,
            },
        );
        j = j + 1;
    }
    MapDesc {
        custom_blocks: models.custom_blocks,
        custom_items: models.custom_items,
        blocks: solid_blocks,
        ghost_blocks,
        free_blocks,
        items: item_descs,
    }
}

} // verus!
