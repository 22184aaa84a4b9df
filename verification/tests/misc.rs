use sync_edit::base64::{Base64, Base64Error};
use sync_edit::fns::{edit_new_map_extra_args, script_args, BackToMainMenuFn, EditNewMap2Fn, PlaceBlockFn};
use sync_edit::pattern::ModuleMemory;
use sync_edit::poll::{BlockOnWaker, Pollable, PollableWaker};
use sync_edit::text::{encode_utf16, encode_utf16_null_terminated};
use sync_edit::desc::Message;

#[test]
fn base64_standard_text() {
    let b = Base64::from_bytes(b"hello world~".to_vec());
    assert_eq!(b.encode(), "aGVsbG8gd29ybGR+");
    assert_eq!(Base64::from_bytes(vec![0xff]).encode(), "/w==");
    assert_eq!(Base64::decode("aGVsbG8gd29ybGR+"), Ok(b));
    assert_eq!(Base64::decode("a"), Err(Base64Error::InvalidValue));
    assert_eq!(Base64::decode("a!=="), Err(Base64Error::InvalidValue));
    assert_eq!(Base64::decode(""), Ok(Base64::from_bytes(vec![])));
}

#[test]
fn base64_decoding_gives_back_the_encoded_bytes() {
    for bytes in [vec![], vec![0u8], vec![1, 2], vec![0xff, 0xfe, 0xfd], (0..=255u8).collect::<Vec<_>>()] {
        let b = Base64::from_bytes(bytes.clone());
        assert_eq!(Base64::decode(&b.encode()), Ok(Base64::from_bytes(bytes)));
    }
}

#[test]
fn utf16_null_terminated() {
    assert_eq!(encode_utf16_null_terminated("Panic!"), "Panic!".encode_utf16().chain([0]).collect::<Vec<_>>());
    assert_eq!(encode_utf16("A\u{1F600}é"), vec![0x41, 0xd83d, 0xde00, 0xe9, 0]);
    assert_eq!(encode_utf16(""), vec![0]);
}

#[test]
fn pollable_polls_once_per_wake() {
    let mut p = Pollable::new(5u32);
    assert!(p.begin_poll());
    assert!(!p.begin_poll());
    p.waker.wake();
    assert!(p.begin_poll());
    assert_eq!(p.future, 5);
    assert!(PollableWaker::new().awake);
    assert!(BlockOnWaker::new().keeps_waiting());
}

#[test]
fn new_map_call_arguments() {
    let extra = edit_new_map_extra_args(1, 2, 3, 4, 5);
    let mut expected = vec![];
    for (addr, tag) in [(5u64, 0x7e), (4, 0x7e), (3, 0x7e), (2, 0x7d), (1, 0x7d)] {
        expected.extend(addr.to_le_bytes());
        expected.extend([tag, 0, 0, 0, 0, 0, 0, 0]);
    }
    assert_eq!(extra, expected);
    let args = script_args(0x7ff7d6eec038, 8, 7, 6, 0x99);
    let mut expected = vec![1, 9, 0, 0, 0x7d, 0x7e, 0x71, 0];
    for w in [0x7ff7d6eec038u64, 8, 7, 6, 0x99] {
        expected.extend(w.to_le_bytes());
    }
    assert_eq!(args, expected);
}

#[test]
fn game_functions_are_found_by_pattern() {
    let mut memory = vec![0u8; 800];
    memory.extend([0x66, 0x0f, 0x7f, 0x44, 0x24, 0x70, 0xe8, 1, 2, 3, 4, 0x8b, 0x4d, 0x2c]);
    memory.extend([0x48, 0x8b, 0x89, 0x40, 0x03, 0x00, 0x00, 0x33, 0xd2, 0xe9, 9, 9, 9, 9]);
    memory.extend([0u8; 4]);
    let module = ModuleMemory::new(0x1_0000, &memory);
    assert_eq!(EditNewMap2Fn::find(&module).map(|f| f.addr), Some(0x1_0000 + 800 - 754));
    assert_eq!(BackToMainMenuFn::find(&module).map(|f| f.addr), Some(0x1_0000 + 814));
    assert!(PlaceBlockFn::find(&module).is_none());
}

#[test]
fn protocol_messages() {
    assert_ne!(Message::PlaceBlock, Message::RemoveBlock);
}
