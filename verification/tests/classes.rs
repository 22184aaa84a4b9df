use sync_edit::classes::{
    Array, Block, BlockInfo, Class, CompactString, ConstString, EditorCommon, FastString, Inherits, ItemModel,
    MapEditor, Menus, Nod, NodRef, ScriptString, StrStorage,
};

fn block(flags: u32) -> Block {
    Block { nod: Nod { ref_count: 1 }, x_coord: 1, y_coord: 2, z_coord: 3, flags }
}

#[test]
fn block_flags_read_their_own_bits() {
    let b = block(0x0000_1000);
    assert!(b.is_ground() && !b.is_ghost() && !b.is_free());
    let b = block(0x1000_0000);
    assert!(!b.is_ground() && b.is_ghost() && !b.is_free());
    let b = block(0x2000_0000);
    assert!(!b.is_ground() && !b.is_ghost() && b.is_free());
    let b = block(0xffff_ffff);
    assert!(b.is_ground() && b.is_ghost() && b.is_free());
    let b = block(!0x3000_1000);
    assert!(!b.is_ground() && !b.is_ghost() && !b.is_free());
}

#[test]
fn class_ids() {
    assert_eq!(BlockInfo::ID, 0x0304e000);
    assert_eq!(ItemModel::ID, 0x2e002000);
    assert_eq!(Menus::ID, 0x030c9000);
    assert_eq!(EditorCommon::ID, 0x0310e000);
    assert_eq!(MapEditor::ID, 0x0310f000);
}

#[test]
fn reference_counting_clone_then_release_is_balanced() {
    let mut info = BlockInfo { nod: Nod { ref_count: 1 }, id: 7 };
    let r = NodRef::from_ptr(0x5000);
    let r2 = r.clone_ref(&mut info);
    assert_eq!(r2.ptr, 0x5000);
    assert_eq!(info.nod.ref_count, 2);
    assert!(!r2.release(&mut info));
    assert_eq!(info.nod.ref_count, 1);
    assert!(r.release(&mut info));
    assert_eq!(info.nod.ref_count, 0);
    let mut nod = Nod { ref_count: 0 };
    let r3 = NodRef::from_target(0x6000, &mut nod);
    assert_eq!(nod.ref_count, 1);
    assert_eq!(nod.parent().ref_count, 1);
    assert!(r3.release(&mut nod));
}

#[test]
fn editor_air_mode_is_replaced() {
    let mut editor = EditorCommon { nod: Nod { ref_count: 1 }, air_mode: false };
    assert!(!editor.replace_air_mode(true));
    assert!(editor.air_mode);
    assert!(editor.replace_air_mode(false));
}

#[test]
fn compact_string_inline_and_heap() {
    let mut data = [0u8; 12];
    data[..5].copy_from_slice(b"Hello");
    let s = CompactString { data, len: 5 };
    assert_eq!(s.storage(), StrStorage::Inline(b"Hello".to_vec()));
    // a non-zero last byte means the first eight bytes are a pointer
    let mut data = [0u8; 12];
    data[..8].copy_from_slice(&0x0000_7ff6_1234_5678u64.to_le_bytes());
    data[11] = 0x80;
    let s = CompactString { data, len: 5 };
    assert_eq!(s.storage(), StrStorage::Heap { ptr: 0x0000_7ff6_1234_5678, len: 5 });
    // so does a length of twelve or more
    let s = CompactString { data: [1; 12], len: 12 };
    assert_eq!(s.storage(), StrStorage::Heap { ptr: 0x0101_0101_0101_0101, len: 12 });
}

#[test]
fn fast_string_inline_and_heap() {
    let mut union = [0u8; 11];
    union[..3].copy_from_slice(b"abc");
    let s = FastString { union, is_ptr: false, len: 3 };
    assert_eq!(s.storage(), StrStorage::Inline(b"abc".to_vec()));
    let mut union = [0u8; 11];
    union[..8].copy_from_slice(&0x1234u64.to_le_bytes());
    let s = FastString { union, is_ptr: true, len: 40 };
    assert_eq!(s.storage(), StrStorage::Heap { ptr: 0x1234, len: 40 });
}

#[test]
fn script_strings_short_inline_long_by_pointer() {
    let s = ScriptString::from_str("CarSport", 0x999);
    assert_eq!(s.union, *b"CarSport");
    assert_eq!((s.flags, s.len), (0, 8));
    let s = ScriptString::from_str("Stadium", 0x999);
    assert_eq!(s.union, [b'S', b't', b'a', b'd', b'i', b'u', b'm', 0]);
    assert_eq!((s.flags, s.len), (0, 7));
    let s = ScriptString::from_str("", 0x999);
    assert_eq!((s.union, s.flags, s.len), ([0; 8], 0, 0));
    let s = ScriptString::from_str("48x48Screen155Day", 0x0000_0279_158f_3150);
    assert_eq!(s.union, 0x0000_0279_158f_3150u64.to_le_bytes());
    assert_eq!((s.flags, s.len), (0x0100_0000, 17));
}

#[test]
fn const_string_length_is_32_bits() {
    let s = ConstString::from_parts(0x10, 5);
    assert_eq!((s.ptr, s.len, s.cap), (0x10, 5, 0));
    let s = ConstString::from_parts(0x10, (1usize << 32) + 3);
    assert_eq!(s.len, 3);
}

#[test]
fn array_elements() {
    let a = Array { items: vec![1u32, 2, 3], cap: 4 };
    assert_eq!(a.as_slice(), &[1, 2, 3]);
}
