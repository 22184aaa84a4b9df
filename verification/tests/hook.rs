use sync_edit::hook::{hook_end, hook_start, trampoline_prologue, HookError};
use sync_edit::os::{ExecutablePage, IoError, ProcessMemorySlice};

/// The prologue as the hooking code writes it, built independently.
fn reference_prologue(callback: usize, num_args: usize) -> Vec<u8> {
    let mut p: Vec<u8> = vec![0x51, 0x52, 0x41, 0x50, 0x41, 0x51];
    let num_stack_args = if num_args >= 4 { num_args - 4 } else { 0 };
    for _ in 0..num_stack_args {
        let dist = 32 + 8 + 32 + num_stack_args * 8;
        p.extend([0xff, 0xb4, 0x24, 0, 0, 0, 0]);
        let n = p.len();
        p[n - 4..n].copy_from_slice(&(dist as u32).to_le_bytes());
    }
    let val = 32 + num_stack_args * 8;
    p.extend([
        0x48, 0x83, 0xec, 0x20, 0x48, 0xb8, 0, 0, 0, 0, 0, 0, 0, 0, 0xff, 0xd0, 0x48, 0x83, 0xc4, 0,
        0x41, 0x59, 0x41, 0x58, 0x5a, 0x59,
    ]);
    let n = p.len();
    p[n - 20..n - 12].copy_from_slice(&(callback as u64).to_le_bytes());
    p[n - 7..n - 6].copy_from_slice(&(val as u8).to_le_bytes());
    p
}

fn pattern20() -> Vec<u8> {
    (0x10u8..0x24).collect()
}

fn memory_with(pattern: &[u8]) -> Vec<u8> {
    let mut m = vec![0xaau8; 5];
    m.extend_from_slice(pattern);
    m.extend_from_slice(&[0xbb; 10]);
    m
}

#[test]
fn prologue_without_stack_arguments() {
    let p = trampoline_prologue(0x1122334455667788, 2);
    assert_eq!(p, reference_prologue(0x1122334455667788, 2));
    assert_eq!(p.len(), 32);
    assert_eq!(p[25], 32);
}

#[test]
fn prologue_copies_stack_arguments() {
    let p = trampoline_prologue(0xdead, 6);
    assert_eq!(p, reference_prologue(0xdead, 6));
    assert_eq!(p.len(), 32 + 14);
    assert_eq!(&p[6..13], &[0xff, 0xb4, 0x24, 88, 0, 0, 0]);
    assert_eq!(p[p.len() - 7], 48);
}

#[test]
fn hook_start_builds_trampoline_and_jump() {
    let pattern = pattern20();
    let memory = memory_with(&pattern);
    let exe = ProcessMemorySlice { ptr: 0x1_4000_0000, len: memory.len() };
    let mut page = ExecutablePage::from_allocation(0x7000_0000, 4096).unwrap();
    let callback = 0x0102_0304_0506_0708usize;
    let hook = hook_start(&exe, &memory, &mut page, &pattern, 15, callback, 5).unwrap();
    assert_eq!(hook.hooked_slice, ProcessMemorySlice { ptr: 0x1_4000_0005, len: 15 });
    assert_eq!(hook.original_code, pattern[..15].to_vec());
    assert_eq!(hook.trampoline, 0x7000_0000);
    let mut expected = reference_prologue(callback, 5);
    expected.extend_from_slice(&pattern[..15]);
    expected.extend_from_slice(&[0x48, 0xb8]);
    expected.extend_from_slice(&(0x1_4000_0005u64 + 15).to_le_bytes());
    expected.extend_from_slice(&[0xff, 0xe0]);
    assert_eq!(hook.trampoline_code, expected);
    assert_eq!(page.allocated, expected.len());
    let mut hook_code = vec![0x48, 0xb8];
    hook_code.extend_from_slice(&0x7000_0000u64.to_le_bytes());
    hook_code.extend_from_slice(&[0xff, 0xe0, 0x90, 0x90, 0x90]);
    assert_eq!(hook.hook_code, hook_code);
    assert_eq!(hook.unhook_code(), &pattern[..15]);
}

#[test]
fn hook_start_errors() {
    let pattern = pattern20();
    let memory = memory_with(&pattern);
    let exe = ProcessMemorySlice { ptr: 0x1000, len: memory.len() };
    let mut page = ExecutablePage::from_allocation(0x9000, 4096).unwrap();
    let absent = vec![0x77u8; 20];
    assert_eq!(hook_start(&exe, &memory, &mut page, &absent, 15, 1, 4).err(), Some(HookError::NotFound));
    assert_eq!(page.allocated, 0);
    // the hook code is 15 bytes long: any other hooked length is refused, after the allocation
    assert_eq!(
        hook_start(&exe, &memory, &mut page, &pattern, 14, 1, 4).err(),
        Some(HookError::Io(IoError::Other))
    );
    assert_eq!(page.allocated, 32 + 14 + 12);
    let mut small = ExecutablePage::from_allocation(0x9000, 40).unwrap();
    assert_eq!(
        hook_start(&exe, &memory, &mut small, &pattern, 15, 1, 4).err(),
        Some(HookError::Io(IoError::OutOfMemory))
    );
    assert_eq!(small.allocated, 0);
}

#[test]
fn hook_end_builds_return_trampoline() {
    let mut pattern = vec![0x01u8, 0x02, 0x03, 0x04];
    pattern.extend_from_slice(&[0x48, 0x83, 0xc4, 0x28, 0x5b, 0x5d, 0x5e, 0x5f, 0x41, 0x5c, 0x41, 0xc3]);
    let memory = memory_with(&pattern);
    let exe = ProcessMemorySlice { ptr: 0x2000, len: memory.len() };
    let mut page = ExecutablePage::from_allocation(0x8000, 4096).unwrap();
    let hook = hook_end(&exe, &memory, &mut page, &pattern, 4, 0xabcd).unwrap();
    assert_eq!(hook.hooked_slice, ProcessMemorySlice { ptr: 0x2000 + 5 + 4, len: 12 });
    assert_eq!(hook.original_code, pattern[4..].to_vec());
    let mut expected = pattern[4..15].to_vec();
    expected.extend_from_slice(&[0x50, 0x48, 0x89, 0xc1, 0x48, 0xb8]);
    expected.extend_from_slice(&0xabcdu64.to_le_bytes());
    expected.extend_from_slice(&[0xff, 0xd0, 0x58, 0xc3]);
    assert_eq!(hook.trampoline_code, expected);
    assert_eq!(page.allocated, 12 + 18);
    let mut hook_code = vec![0x48, 0xb9];
    hook_code.extend_from_slice(&0x8000u64.to_le_bytes());
    hook_code.extend_from_slice(&[0xff, 0xe1]);
    assert_eq!(hook.hook_code, hook_code);
}

#[test]
fn hook_end_refuses_other_lengths() {
    let pattern = pattern20();
    let memory = memory_with(&pattern);
    let exe = ProcessMemorySlice { ptr: 0x2000, len: memory.len() };
    let mut page = ExecutablePage::from_allocation(0x8000, 4096).unwrap();
    assert_eq!(
        hook_end(&exe, &memory, &mut page, &pattern, 4, 1).err(),
        Some(HookError::Io(IoError::Other))
    );
    assert_eq!(hook_end(&exe, &memory, &mut page, &[0x99, 0x98], 1, 1).err(), Some(HookError::NotFound));
}

#[test]
fn unhook_code_is_the_memory_under_the_hook() {
    let pattern = pattern20();
    let memory = memory_with(&pattern);
    let exe = ProcessMemorySlice { ptr: 0x3000, len: memory.len() };
    let mut page = ExecutablePage::from_allocation(0x8000, 4096).unwrap();
    let start = hook_start(&exe, &memory, &mut page, &pattern, 15, 7, 4).unwrap();
    let at = start.hooked_slice.ptr - exe.ptr;
    assert_eq!(&memory[at..at + start.hooked_slice.len], start.unhook_code());
    assert_eq!(start.hook_code.len(), start.hooked_slice.len);

    let mut end_pattern = vec![0x01u8, 0x02, 0x03];
    end_pattern.extend_from_slice(&[0x48, 0x83, 0xc4, 0x28, 0x5b, 0x5d, 0x5e, 0x5f, 0x41, 0x5c, 0x41, 0xc3]);
    let memory = memory_with(&end_pattern);
    let exe = ProcessMemorySlice { ptr: 0x5000, len: memory.len() };
    let end = hook_end(&exe, &memory, &mut page, &end_pattern, 3, 7).unwrap();
    let at = end.hooked_slice.ptr - exe.ptr;
    assert_eq!(&memory[at..at + end.hooked_slice.len], end.unhook_code());
    assert_eq!(end.hook_code.len(), end.hooked_slice.len);
}

#[test]
fn absent_patterns_are_not_found_whatever_the_offset() {
    let pattern = pattern20();
    let memory = memory_with(&pattern);
    let exe = ProcessMemorySlice { ptr: 0x1000, len: memory.len() };
    let mut page = ExecutablePage::from_allocation(0x9000, 4096).unwrap();
    let absent = vec![0x77u8; 20];
    assert_eq!(hook_start(&exe, &memory, &mut page, &absent, 40, 1, 4).err(), Some(HookError::NotFound));
    assert_eq!(hook_end(&exe, &memory, &mut page, &absent, 20, 1).err(), Some(HookError::NotFound));
    assert_eq!(page.allocated, 0);
    // found, but the replaced code would run past the end of memory
    let past = memory.len() - 5 + 1;
    assert_eq!(
        hook_start(&exe, &memory, &mut page, &pattern, past, 1, 4).err(),
        Some(HookError::Io(IoError::Other))
    );
    assert_eq!(page.allocated, 0);
}
