//! Game classes, as the plain values that the client reads from them:
//! reference counts, flags, coordinates and the layouts of the game's strings.
use vstd::prelude::*;
use crate::code::{from_le64, le64, read_le64};
use vstd::string::StringSliceAdditionalSpecFns;

verus! {

/// A game class with its class identifier.
pub trait Class {
    const ID: u32;
}

/// A game object that embeds a `Nod` (its base class).
pub trait Inherits {
    /// The embedded `Nod`.
    spec fn nod_view(&self) -> Nod;

    /// A mutable reference to the embedded `Nod`.
    fn parent(&mut self) -> (r: &mut Nod)
        ensures
            *r == old(self).nod_view(),
            final(self).nod_view() == *final(r),
    ;
}

/// CMwNod: the base of every game object, with its reference count.
#[derive(Debug, Clone, Copy, PartialEq, Eq)]
pub struct Nod {
    pub ref_count: u32,
}

impl Inherits for Nod {
    open spec fn nod_view(&self) -> Nod {
        *self
    }

    fn parent(&mut self) -> (r: &mut Nod) {
        self
    }
}

/// The reference count after a reference is taken.
pub open spec fn count_after_clone(count: u32) -> int {
    count + 1
}

/// The reference count after a reference is given up.
pub open spec fn count_after_release(count: u32) -> int {
    count - 1
}

/// Whether giving up a reference destroys the object: it was the last one.
pub open spec fn release_destroys(count: u32) -> bool {
    count == 1
}

/// Reference-counted pointer to a `Nod` instance, by its address.
#[derive(Debug, PartialEq, Eq)]
pub struct NodRef {
    pub ptr: usize,
}

impl NodRef {
    /// A reference to the object at `ptr`, taking over a reference that the
    /// game already counted.
    pub fn from_ptr(ptr: usize) -> (r: Self)
        ensures
            r.ptr == ptr,
    {
        NodRef { ptr }
    }

    /// A new reference to the object `target` at address `ptr`: the
    /// object's reference count goes up by one.
    pub fn from_target<T: Inherits>(ptr: usize, target: &mut T) -> (r: Self)
        requires
            old(target).nod_view().ref_count < u32::MAX,
        ensures
            r.ptr == ptr,
            final(target).nod_view().ref_count == count_after_clone(old(target).nod_view().ref_count),
    {
        let nod = target.parent();
        nod.ref_count = nod.ref_count + 1;
        NodRef { ptr }
    }

    /// Another reference to the same object, `target` being the object this
    /// reference points to: its reference count goes up by one.
    pub fn clone_ref<T: Inherits>(&self, target: &mut T) -> (r: Self)
        requires
            old(target).nod_view().ref_count < u32::MAX,
        ensures
            r.ptr == self.ptr,
            final(target).nod_view().ref_count == count_after_clone(old(target).nod_view().ref_count),
    {
        let nod = target.parent();
        nod.ref_count = nod.ref_count + 1;
        NodRef { ptr: self.ptr }
    }

    /// Gives up this reference to `target`: its reference count goes down by
    /// one; the result says whether it reached zero, when the object's
    /// destructor is to be called.
    pub fn release<T: Inherits>(self, target: &mut T) -> (destroy: bool)
        requires
            old(target).nod_view().ref_count > 0,
        ensures
            final(target).nod_view().ref_count == count_after_release(old(target).nod_view().ref_count),
            destroy == release_destroys(old(target).nod_view().ref_count),
            destroy == (final(target).nod_view().ref_count == 0),
    {
        let nod = target.parent();
        nod.ref_count = nod.ref_count - 1;
        nod.ref_count == 0
    }
}

/// Taking a reference (`from_target`, `clone_ref`) and giving it up again
/// (`release`) leaves the reference count as it was, and the release does not
/// destroy an object that was referenced before.
pub proof fn lemma_clone_release_balanced(count: u32)
    requires
        count < u32::MAX,
    ensures
        0 <= count_after_clone(count) <= u32::MAX,
        count_after_release(count_after_clone(count) as u32) == count,
        release_destroys(count_after_clone(count) as u32) == (count == 0),
{
}

/// CMwSArray: the elements that the game's array holds, and its capacity.
#[derive(Debug)]
pub struct Array<T> {
    pub items: Vec<T>,
    pub cap: u32,
}

impl<T> Array<T> {
    /// The elements of the array.
    pub fn as_slice(&self) -> (r: &[T])
        ensures
            r@ == self.items@,
    {
        self.items.as_slice()
    }
}

/// Where the characters of a game string are: inline in the string object, or
/// in a buffer elsewhere (its address and length).
#[derive(Debug, PartialEq, Eq)]
pub enum StrStorage {
    Inline(Vec<u8>),
    Heap { ptr: u64, len: usize },
}

/// CMwSCompactString: up to eleven characters inline, else a pointer in the
/// first eight bytes of `data`.
#[derive(Debug, Clone, Copy)]
pub struct CompactString {
    pub data: [u8; 12],
    pub len: u32,
}

impl CompactString {
    /// The characters are in a buffer elsewhere when the length does not fit
    /// or the last byte of `data` is not zero.
    pub open spec fn is_heap(&self) -> bool {
        self.len >= 12 || self.data@[11] != 0
    }

    /// Where the string's characters are.
    pub fn storage(&self) -> (r: StrStorage)
        ensures
            self.is_heap() ==> r == (StrStorage::Heap {
                ptr: from_le64(self.data@),
                len: self.len as usize,
            }),
            !self.is_heap() ==> (r matches StrStorage::Inline(b) && b@ == self.data@.take(
                self.len as int,
            )),
    {
        let len = self.len as usize;
        if len >= 12 || self.data[11] != 0 {
            StrStorage::Heap { ptr: read_le64(self.data.as_slice()), len }
        } else {
            let mut v: Vec<u8> = Vec::new();
            let mut i: usize = 0;
            while i < len
                invariant
                    i <= len < 12,
                    v@ == self.data@.take(i as int),
                decreases len - i,
            {
                v.push(self.data[i]);
                assert(self.data@.take(i + 1) =~= self.data@.take(i as int).push(self.data@[i as int]));
                i = i + 1;
            }
            StrStorage::Inline(v)
        }
    }
}

/// CFastString: up to eleven characters inline, or a pointer; `is_ptr` says
/// which.
#[derive(Debug, Clone, Copy)]
pub struct FastString {
    pub union: [u8; 11],
    pub is_ptr: bool,
    pub len: u32,
}

impl FastString {
    /// Where the string's characters are.
    pub fn storage(&self) -> (r: StrStorage)
        requires
            !self.is_ptr ==> self.len <= 11,
        ensures
            self.is_ptr ==> r == (StrStorage::Heap {
                ptr: from_le64(self.union@),
                len: self.len as usize,
            }),
            !self.is_ptr ==> (r matches StrStorage::Inline(b) && b@ == self.union@.take(
                self.len as int,
            )),
    {
        let len = self.len as usize;
        if self.is_ptr {
            StrStorage::Heap { ptr: read_le64(self.union.as_slice()), len }
        } else {
            let mut v: Vec<u8> = Vec::new();
            let mut i: usize = 0;
            while i < len
                invariant
                    i <= len <= 11,
                    v@ == self.union@.take(i as int),
                decreases len - i,
            {
                v.push(self.union[i]);
                assert(self.union@.take(i + 1) =~= self.union@.take(i as int).push(
                    self.union@[i as int],
                ));
                i = i + 1;
            }
            StrStorage::Inline(v)
        }
    }
}

/// CMwSConstString: a pointer to characters and their number.
#[derive(Debug, Clone, Copy, PartialEq, Eq)]
pub struct ConstString {
    pub ptr: usize,
    pub len: u32,
    pub cap: u32,
}

impl ConstString {
    /// The constant string of `len` characters at `ptr`; the length is kept
    /// modulo 2^32, as the game's field is 32 bits wide.
    pub fn from_parts(ptr: usize, len: usize) -> (r: Self)
        ensures
            r.ptr == ptr,
            r.len == len as u32,
            r.cap == 0,
    {
        ConstString { ptr, len: len as u32, cap: 0 }
    }
}

/// A script string argument: up to eight characters inline (flags 0), else a
/// pointer to them (flags 0x01000000).
#[derive(Debug, Clone, Copy)]
pub struct ScriptString {
    pub union: [u8; 8],
    pub flags: u32,
    pub len: u32,
}

/// The inline bytes of a short script string: its characters, then zeros.
pub open spec fn padded8(s: Seq<u8>) -> Seq<u8> {
    Seq::new(8, |i: int| if i < s.len() { s[i] } else { 0u8 })
}

impl ScriptString {
    /// The script string for the characters `s`, which are at address `ptr`.
    pub fn from_bytes(s: &[u8], ptr: u64) -> (r: Self)
        ensures
            s@.len() <= 8 ==> r.union@ == padded8(s@) && r.flags == 0,
            s@.len() > 8 ==> r.union@ == le64(ptr) && r.flags == 0x01000000,
            r.len == s@.len() as u32,
    {
        if s.len() <= 8 {
            let mut chars = [0u8; 8];
            let mut i: usize = 0;
            while i < s.len()
                invariant
                    s@.len() <= 8,
                    i <= s@.len(),
                    chars@.len() == 8,
                    forall|k: int| 0 <= k < i ==> chars@[k] == s@[k],
                    forall|k: int| i <= k < 8 ==> chars@[k] == 0u8,
                decreases s.len() - i,
            {
                chars[i] = s[i];
                i = i + 1;
            }
            assert(chars@ =~= padded8(s@));
            ScriptString { union: chars, flags: 0, len: s.len() as u32 }
        } else {
            let union = [
                ptr as u8,
                (ptr >> 8u64) as u8,
                (ptr >> 16u64) as u8,
                (ptr >> 24u64) as u8,
                (ptr >> 32u64) as u8,
                (ptr >> 40u64) as u8,
                (ptr >> 48u64) as u8,
                (ptr >> 56u64) as u8,
            ];
            assert(union@ =~= le64(ptr));
            ScriptString { union, flags: 0x01000000, len: s.len() as u32 }
        }
    }

    /// The script string for `s`, whose characters are at address `ptr`.
    pub fn from_str(s: &str, ptr: u64) -> (r: Self)
        ensures
            s.spec_bytes().len() <= 8 ==> r.union@ == padded8(s.spec_bytes()) && r.flags == 0,
            s.spec_bytes().len() > 8 ==> r.union@ == le64(ptr) && r.flags == 0x01000000,
            r.len == s.spec_bytes().len() as u32,
    {
        Self::from_bytes(s.as_bytes(), ptr)
    }
}

/// CGameCtnBlockInfo.
#[derive(Debug)]
pub struct BlockInfo {
    pub nod: Nod,
    pub id: u32,
}

impl Class for BlockInfo {
    const ID: u32 = 0x0304e000;
}

impl Inherits for BlockInfo {
    open spec fn nod_view(&self) -> Nod {
        self.nod
    }

    fn parent(&mut self) -> (r: &mut Nod) {
        &mut self.nod
    }
}

/// CGameItemModel.
#[derive(Debug)]
pub struct ItemModel {
    pub nod: Nod,
    pub id: u32,
    pub entity_model: Option<NodRef>,
}

impl Class for ItemModel {
    const ID: u32 = 0x2e002000;
}

impl Inherits for ItemModel {
    open spec fn nod_view(&self) -> Nod {
        self.nod
    }

    fn parent(&mut self) -> (r: &mut Nod) {
        &mut self.nod
    }
}

/// CGameCtnBlock: its coordinates and flags.
#[derive(Debug)]
pub struct Block {
    pub nod: Nod,
    pub x_coord: u32,
    pub y_coord: u32,
    pub z_coord: u32,
    pub flags: u32,
}

impl Block {
    pub open spec fn flag(&self, mask: u32) -> bool {
        self.flags & mask != 0
    }

    /// Whether the block is a ground variant (flag bit 12).
    pub fn is_ground(&self) -> (r: bool)
        ensures
            r == self.flag(0x00001000),
    {
        self.flags & 0x00001000 != 0
    }

    /// Whether the block is a ghost block (flag bit 28).
    pub fn is_ghost(&self) -> (r: bool)
        ensures
            r == self.flag(0x10000000),
    {
        self.flags & 0x10000000 != 0
    }

    /// Whether the block is a free block (flag bit 29).
    pub fn is_free(&self) -> (r: bool)
        ensures
            r == self.flag(0x20000000),
    {
        self.flags & 0x20000000 != 0
    }
}

impl Inherits for Block {
    open spec fn nod_view(&self) -> Nod {
        self.nod
    }

    fn parent(&mut self) -> (r: &mut Nod) {
        &mut self.nod
    }
}

/// The three flags are independent bits: each reads only its own bit.
pub proof fn lemma_block_flags_independent(flags: u32)
    ensures
        (flags | 0x00001000u32) & 0x00001000u32 != 0,
        (flags | 0x10000000u32) & 0x10000000u32 != 0,
        (flags | 0x20000000u32) & 0x20000000u32 != 0,
        ((flags | 0x00001000u32) & 0x10000000u32 != 0) == (flags & 0x10000000u32 != 0),
        ((flags | 0x00001000u32) & 0x20000000u32 != 0) == (flags & 0x20000000u32 != 0),
        ((flags | 0x10000000u32) & 0x20000000u32 != 0) == (flags & 0x20000000u32 != 0),
        ((flags | 0x10000000u32) & 0x00001000u32 != 0) == (flags & 0x00001000u32 != 0),
        ((flags | 0x20000000u32) & 0x00001000u32 != 0) == (flags & 0x00001000u32 != 0),
        ((flags | 0x20000000u32) & 0x10000000u32 != 0) == (flags & 0x10000000u32 != 0),
{
    assert((flags | 0x00001000u32) & 0x00001000u32 != 0) by (bit_vector);
    assert((flags | 0x10000000u32) & 0x10000000u32 != 0) by (bit_vector);
    assert((flags | 0x20000000u32) & 0x20000000u32 != 0) by (bit_vector);
    assert(((flags | 0x00001000u32) & 0x10000000u32 != 0) == (flags & 0x10000000u32 != 0))
        by (bit_vector);
    assert(((flags | 0x00001000u32) & 0x20000000u32 != 0) == (flags & 0x20000000u32 != 0))
        by (bit_vector);
    assert(((flags | 0x10000000u32) & 0x20000000u32 != 0) == (flags & 0x20000000u32 != 0))
        by (bit_vector);
    assert(((flags | 0x10000000u32) & 0x00001000u32 != 0) == (flags & 0x00001000u32 != 0))
        by (bit_vector);
    assert(((flags | 0x20000000u32) & 0x00001000u32 != 0) == (flags & 0x00001000u32 != 0))
        by (bit_vector);
    assert(((flags | 0x20000000u32) & 0x10000000u32 != 0) == (flags & 0x10000000u32 != 0))
        by (bit_vector);
}

/// CGameCtnMenus.
#[derive(Debug)]
pub struct Menus;

impl Class for Menus {
    const ID: u32 = 0x030c9000;
}

/// CGameCtnEditorFree.
#[derive(Debug)]
pub struct MapEditor;

impl Class for MapEditor {
    const ID: u32 = 0x0310f000;
}

/// CGameSwitcherModule.
#[derive(Debug)]
pub struct SwitcherModule {
    pub nod: Nod,
}

impl Inherits for SwitcherModule {
    open spec fn nod_view(&self) -> Nod {
        self.nod
    }

    fn parent(&mut self) -> (r: &mut Nod) {
        &mut self.nod
    }
}

/// CGameEditorPluginMap.
#[derive(Debug)]
pub struct EditorPluginMap {
    pub nod: Nod,
}

impl Inherits for EditorPluginMap {
    open spec fn nod_view(&self) -> Nod {
        self.nod
    }

    fn parent(&mut self) -> (r: &mut Nod) {
        &mut self.nod
    }
}

/// CGameCtnEditorCommon: the map editor, with its air mode.
#[derive(Debug)]
pub struct EditorCommon {
    pub nod: Nod,
    pub air_mode: bool,
}

impl Class for EditorCommon {
    const ID: u32 = 0x0310e000;
}

impl Inherits for EditorCommon {
    open spec fn nod_view(&self) -> Nod {
        self.nod
    }

    fn parent(&mut self) -> (r: &mut Nod) {
        &mut self.nod
    }
}

impl EditorCommon {
    /// Sets the air mode and returns the previous one.
    pub fn replace_air_mode(&mut self, air_mode: bool) -> (previous: bool)
        ensures
            previous == old(self).air_mode,
            final(self).air_mode == air_mode,
            final(self).nod == old(self).nod,
    {
        let previous = self.air_mode;
        self.air_mode = air_mode;
        previous
    }
}

/// CGameManiaTitleControlScriptAPI.
#[derive(Debug)]
pub struct ManiaTitleControlScriptApi {
    pub nod: Nod,
}

impl Inherits for ManiaTitleControlScriptApi {
    open spec fn nod_view(&self) -> Nod {
        self.nod
    }

    fn parent(&mut self) -> (r: &mut Nod) {
        &mut self.nod
    }
}

/// CPlugFileDesc of a skin pack; the client only passes its address on.
#[derive(Debug)]
pub struct PackDesc;

} // verus!
