//! Descriptions of a map as the server sends them to clients: custom models,
//! blocks, ghost blocks, free blocks and items, and the map's parameters.
//!
//! Positions and rotations are `f32` values that are never NaN; they are held
//! here by their bit patterns (`f32::to_bits`), which the library only passes on.
use vstd::prelude::*;

verus! {

/// The content hash of a custom model: the 32 bytes of its BLAKE3 hash.
#[derive(Debug, Clone, Copy, PartialEq, Eq, Hash)]
pub struct ContentHash {
    pub bytes: [u8; 32],
}

/// BLAKE3 hash of `data` (the result of `blake3::Hasher`'s `update` and
/// `finalize`).
pub uninterp spec fn blake3_hash(data: Seq<u8>) -> Seq<u8>;

/// Hashes `bytes` with `blake3::Hasher::new().update(bytes).finalize()`; the
/// contract names the result and says nothing else of it.
#[verifier::external_body]
pub fn hash(bytes: &[u8]) -> (r: ContentHash)
    ensures
        r.bytes@ == blake3_hash(bytes@),
{
    ContentHash { bytes: *blake3::Hasher::new().update(bytes).finalize().as_bytes() }
}

/// The lowercase hexadecimal digit of `v` (below 16).
pub open spec fn hex_lower(v: u8) -> u8 {
    if v < 10 {
        (0x30 + v) as u8
    } else {
        (0x61 + v - 10) as u8
    }
}

/// The lowercase hexadecimal text of `bytes`, two digits per byte, high half first.
pub open spec fn hex_spec(bytes: Seq<u8>) -> Seq<u8>
    decreases bytes.len(),
{
    if bytes.len() == 0 {
        seq![]
    } else {
        hex_spec(bytes.drop_last()) + seq![
            hex_lower(bytes.last() / 16),
            hex_lower(bytes.last() % 16),
        ]
    }
}

fn hex_digit_lower(v: u8) -> (r: u8)
    requires
        v < 16,
    ensures
        r == hex_lower(v),
{
    if v < 10 {
        0x30 + v
    } else {
        0x61 + v - 10
    }
}

impl ContentHash {
    /// The hash as lowercase hexadecimal text (as `blake3::Hash::to_hex`).
    pub fn to_hex(&self) -> (r: Vec<u8>)
        ensures
            r@ == hex_spec(self.bytes@),
            r@.len() == 64,
    {
        let mut v: Vec<u8> = Vec::new();
        let mut i: usize = 0;
        while i < 32
            invariant
                i <= 32,
                v@ == hex_spec(self.bytes@.take(i as int)),
                v@.len() == 2 * i,
            decreases 32 - i,
        {
            let b = self.bytes[i];
            v.push(hex_digit_lower(b / 16));
            v.push(hex_digit_lower(b % 16));
            assert(self.bytes@.take(i + 1).drop_last() =~= self.bytes@.take(i as int));
            i = i + 1;
        }
        assert(self.bytes@.take(32) =~= self.bytes@);
        v
    }

    /// Whether two hashes are the same.
    pub fn same(&self, other: &ContentHash) -> (r: bool)
        ensures
            r == (self.bytes@ == other.bytes@),
    {
        let mut i: usize = 0;
        while i < 32
            invariant
                i <= 32,
                forall|k: int| 0 <= k < i ==> self.bytes@[k] == other.bytes@[k],
            decreases 32 - i,
        {
            if self.bytes[i] != other.bytes[i] {
                return false;
            }
            i = i + 1;
        }
        assert(self.bytes@ =~= other.bytes@);
        true
    }
}

/// The mood (time of day) of a map.
#[derive(Debug, Clone, Copy, PartialEq, Eq)]
pub enum Mood {
    Day,
    Sunset,
    Night,
    Sunrise,
}

/// The parameters of a map that the client needs to open the editor.
#[derive(Debug, Clone, Copy, PartialEq, Eq)]
pub struct MapParamsDesc {
    pub mood: Mood,
}

/// The bytes of a custom block model file.
#[derive(Debug, Clone)]
pub struct CustomBlockDesc {
    pub bytes: Vec<u8>,
}

/// The bytes of a custom item model file.
#[derive(Debug, Clone)]
pub struct CustomItemDesc {
    pub bytes: Vec<u8>,
}

/// Direction a block faces.
#[derive(Debug, Clone, Copy, PartialEq, Eq, Hash)]
pub enum Direction {
    North,
    East,
    South,
    West,
}

/// Color of a block or item.
#[derive(Debug, Clone, Copy, PartialEq, Eq, Hash)]
pub enum ElemColor {
    Default,
    White,
    Green,
    Blue,
    Red,
    Black,
}

/// Animation phase offset of an item.
#[derive(Debug, Clone, Copy, PartialEq, Eq, Hash)]
pub enum PhaseOffset {
    Zero,
    One8th,
    Two8th,
    Three8th,
    Four8th,
    Five8th,
    Six8th,
    Seven8th,
}

/// A vector of three components.
#[derive(Debug, Clone, Copy, PartialEq, Eq, Hash)]
pub struct Vec3<T> {
    pub x: T,
    pub y: T,
    pub z: T,
}

/// Identifies the model of a block or item: a model of the game by its
/// identifier, or a custom model by its content hash.
#[derive(Debug, Clone)]
pub enum ModelId {
    Game { id: String },
    Custom { hash: ContentHash },
}

/// A model identifier as a mathematical value.
pub enum ModelKey {
    Game(Seq<char>),
    Custom(Seq<u8>),
}

impl ModelId {
    pub open spec fn key(&self) -> ModelKey {
        match self {
            ModelId::Game { id } => ModelKey::Game(id@),
            ModelId::Custom { hash } => ModelKey::Custom(hash.bytes@),
        }
    }
}

/// A (normal) block placed on the grid.
#[derive(Debug, Clone)]
pub struct BlockDesc {
    pub block_info_id: ModelId,
    pub coord: Vec3<u8>,
    pub dir: Direction,
    pub is_air_variant: bool,
    pub elem_color: ElemColor,
}

/// A ghost block placed on the grid.
#[derive(Debug, Clone)]
pub struct GhostBlockDesc {
    pub block_info_id: ModelId,
    pub coord: Vec3<u8>,
    pub dir: Direction,
    pub is_air_variant: bool,
    pub elem_color: ElemColor,
}

/// A free block: position and rotation are `f32` bit patterns.
#[derive(Debug, Clone)]
pub struct FreeBlockDesc {
    pub block_info_id: ModelId,
    pub position: Vec3<u32>,
    pub yaw: u32,
    pub pitch: u32,
    pub roll: u32,
    pub elem_color: ElemColor,
}

/// An item: positions and rotation are `f32` bit patterns.
#[derive(Debug, Clone)]
pub struct ItemDesc {
    pub item_model_id: ModelId,
    pub position: Vec3<u32>,
    pub yaw: u32,
    pub pitch: u32,
    pub roll: u32,
    pub pivot_position: Vec3<u32>,
    pub elem_color: ElemColor,
    pub anim_offset: PhaseOffset,
}

/// A whole map.
#[derive(Debug, Clone)]
pub struct MapDesc {
    pub custom_blocks: Vec<CustomBlockDesc>,
    pub custom_items: Vec<CustomItemDesc>,
    pub blocks: Vec<BlockDesc>,
    pub ghost_blocks: Vec<GhostBlockDesc>,
    pub free_blocks: Vec<FreeBlockDesc>,
    pub items: Vec<ItemDesc>,
}

impl MapDesc {
    pub open spec fn is_empty(&self) -> bool {
        &&& self.custom_blocks@.len() == 0
        &&& self.custom_items@.len() == 0
        &&& self.blocks@.len() == 0
        &&& self.ghost_blocks@.len() == 0
        &&& self.free_blocks@.len() == 0
        &&& self.items@.len() == 0
    }
}

/// The server's map.
#[derive(Debug)]
pub struct ServerMap {
    pub desc: MapDesc,
}

impl ServerMap {
    /// An empty map.
    pub fn new() -> (r: Self)
        ensures
            r.desc.is_empty(),
    {
        ServerMap {
            desc: MapDesc {
                custom_blocks: Vec::new(),
                custom_items: Vec::new(),
                blocks: Vec::new(),
                ghost_blocks: Vec::new(),
                free_blocks: Vec::new(),
                items: Vec::new(),
            },
        }
    }
}

/// The messages of the editing protocol.
#[derive(Debug, Clone, Copy, PartialEq, Eq)]
pub enum Message {
    PlaceBlock,
    RemoveBlock,
    PlaceItem,
    RemoveItem,
}

} // verus!
