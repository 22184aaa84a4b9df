use sync_edit::code::{jump_rax, jump_rcx};
use sync_edit::game_hook::{
    place_block_hook, place_block_trampoline_code, place_item_hook, place_item_trampoline_code,
    remove_block_hook, remove_block_trampoline_code, remove_item_hook, remove_item_trampoline_code, HookSite,
};
use sync_edit::pattern::ModuleMemory;

const CONTEXT: usize = 0x0000_7ff0_1234_5678;
const CALLBACK: usize = 0x0000_7ff0_abcd_ef00;

#[test]
fn place_block_trampoline_matches_hand_assembly() {
    let hook = place_block_hook();
    let original = hook.original_code();
    assert_eq!(original, hook.code_pattern[16..].to_vec());
    let code = place_block_trampoline_code(&original, CONTEXT as u64, CALLBACK as u64);
    let mut expected = original[..11].to_vec();
    expected.extend_from_slice(&[0x50, 0x48, 0xb9]);
    expected.extend_from_slice(&(CONTEXT).to_le_bytes());
    expected.extend_from_slice(&[0x48, 0x89, 0xc2, 0x48, 0xb8]);
    expected.extend_from_slice(&(CALLBACK).to_le_bytes());
    expected.extend_from_slice(&[0xff, 0xd0, 0x58, 0xc3]);
    assert_eq!(code, expected);
}

#[test]
fn remove_block_and_item_trampolines_jump_back() {
    let hook = remove_block_hook();
    let original = hook.original_code();
    assert_eq!(original, hook.code_pattern[..15].to_vec());
    let code = remove_block_trampoline_code(&original, CONTEXT as u64, CALLBACK as u64, 0x1400);
    let mut expected = original.clone();
    expected.extend_from_slice(&[0x51, 0x52, 0x41, 0x50, 0x41, 0x51, 0x48, 0x83, 0xec, 0x28, 0x48, 0xb9]);
    expected.extend_from_slice(&(CONTEXT).to_le_bytes());
    expected.extend_from_slice(&[0x48, 0xb8]);
    expected.extend_from_slice(&(CALLBACK).to_le_bytes());
    expected.extend_from_slice(&[0xff, 0xd0, 0x48, 0x83, 0xc4, 0x28, 0x41, 0x59, 0x41, 0x58, 0x5a, 0x59, 0x48, 0xb8]);
    expected.extend_from_slice(&0x1400usize.to_le_bytes());
    expected.extend_from_slice(&[0xff, 0xe0]);
    assert_eq!(code, expected);

    let item = remove_item_hook();
    let original = item.original_code();
    assert_eq!(original.len(), 13);
    let code = remove_item_trampoline_code(&original, 1, 2, 3);
    assert_eq!(code[original.len() + 9], 0x20);
    assert_eq!(code[code.len() - 12..], jump_rax(3)[..]);
}

#[test]
fn place_item_trampoline_matches_hand_assembly() {
    let hook = place_item_hook();
    let original = hook.original_code();
    assert_eq!(original, hook.code_pattern[7..].to_vec());
    let code = place_item_trampoline_code(&original, CONTEXT as u64, CALLBACK as u64);
    let mut expected = vec![0x48, 0x89, 0xda];
    expected.extend_from_slice(&original[..19]);
    expected.extend_from_slice(&[0x50, 0x50, 0x48, 0xb9]);
    expected.extend_from_slice(&(CONTEXT).to_le_bytes());
    expected.extend_from_slice(&[0x49, 0x89, 0xc0, 0x48, 0xb8]);
    expected.extend_from_slice(&(CALLBACK).to_le_bytes());
    expected.extend_from_slice(&[0xff, 0xd0, 0x58, 0x58, 0x5f, 0xc3]);
    assert_eq!(code, expected);
}

#[test]
fn jumps_are_absolute() {
    let mut rax = vec![0x48, 0xb8];
    rax.extend_from_slice(&0x1122334455667788u64.to_le_bytes());
    rax.extend_from_slice(&[0xff, 0xe0]);
    assert_eq!(jump_rax(0x1122334455667788), rax);
    let mut rcx = vec![0x48, 0xb9];
    rcx.extend_from_slice(&0x1122334455667788u64.to_le_bytes());
    rcx.extend_from_slice(&[0xff, 0xe1]);
    assert_eq!(jump_rcx(0x1122334455667788), rcx);
}

#[test]
fn locate_finds_first_occurrence() {
    let hook = place_block_hook();
    let mut memory = vec![0u8; 3];
    memory.extend_from_slice(&hook.code_pattern);
    memory.extend_from_slice(&hook.code_pattern);
    let module = ModuleMemory::new(0x10000, &memory);
    assert_eq!(hook.locate(&module), Some(HookSite { ptr: 0x10000 + 3 + 16, end_ptr: 0x10000 + 3 + 28 }));
    let empty = ModuleMemory::new(0x10000, &memory[..10]);
    assert_eq!(hook.locate(&empty), None);
}

#[test]
fn unhooking_writes_back_the_replaced_code() {
    for hook in [place_block_hook(), remove_block_hook(), remove_item_hook(), place_item_hook()] {
        let mut memory = vec![0xccu8; 5];
        memory.extend_from_slice(&hook.code_pattern);
        memory.extend_from_slice(&[0x90; 4]);
        let base = 0x40_0000;
        let module = ModuleMemory::new(base, &memory);
        let site = hook.locate(&module).unwrap();
        assert_eq!(memory[site.ptr - base..site.end_ptr - base], hook.original_code()[..]);
    }
}

#[test]
fn end_hooks_jump_through_rcx_start_hooks_through_rax() {
    let t = 0x0000_7ff0_5555_0000u64;
    assert_eq!(place_block_hook().hook_code(t), jump_rcx(t));
    assert_eq!(place_item_hook().hook_code(t), jump_rcx(t));
    assert_eq!(remove_block_hook().hook_code(t), jump_rax(t));
    assert_eq!(remove_item_hook().hook_code(t), jump_rax(t));
    // the hook code covers exactly the replaced code of the end hooks
    assert_eq!(place_block_hook().hook_code(t).len(), place_block_hook().original_len);
}
