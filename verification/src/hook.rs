//! Hooking the start or the end of a function in the game's code.
//!
//! A hook is located by a byte pattern in the module's memory; the hooked code
//! is replaced by a jump to a trampoline allocated in an executable page. This
//! module decides where the hook goes and computes every byte that is written;
//! the writes themselves are made by the application.
use vstd::prelude::*;
use crate::code::{jump_rax, jump_rax_spec, jump_rcx, jump_rcx_spec, le32, le64, push_all, push_le32, push_le64};
use crate::os::{alloc_spec, ExecutablePage, IoError, ProcessMemorySlice};
use vstd::slice::slice_subrange;

verus! {

/// Error that occured when trying to hook a function.
#[derive(Debug, Clone, Copy, PartialEq, Eq)]
pub enum HookError {
    /// The target function could not be found.
    NotFound,
    /// An I/O error.
    Io(IoError),
}

/// Whether `needle` occurs in `haystack` starting at `i`.
pub open spec fn occurs_at(haystack: Seq<u8>, needle: Seq<u8>, i: int) -> bool {
    &&& 0 <= i
    &&& i + needle.len() <= haystack.len()
    &&& haystack.subrange(i, i + needle.len()) == needle
}

/// `r` is the index of the first occurrence of `needle` in `haystack`, or
/// `None` when there is none.
pub open spec fn is_first_occurrence(haystack: Seq<u8>, needle: Seq<u8>, r: Option<usize>) -> bool {
    match r {
        Some(i) => occurs_at(haystack, needle, i as int) && forall|j: int|
            0 <= j < i ==> !occurs_at(haystack, needle, j),
        None => forall|j: int| !occurs_at(haystack, needle, j),
    }
}

/// Calls `memchr::memmem::find`, which returns the index of the first
/// occurrence of `needle` in `haystack` (the contract states exactly that).
#[verifier::external_body]
pub(crate) fn memmem_find(haystack: &[u8], needle: &[u8]) -> (r: Option<usize>)
    ensures
        is_first_occurrence(haystack@, needle@, r),
{
    memchr::memmem::find(haystack, needle)
}

/// Number of the arguments of a hooked function that are passed on the stack.
pub open spec fn stack_arg_count(num_args: nat) -> nat {
    if num_args >= 4 {
        (num_args - 4) as nat
    } else {
        0
    }
}

/// `k` copies of `s`.
pub open spec fn repeat_seq(s: Seq<u8>, k: nat) -> Seq<u8>
    decreases k,
{
    if k == 0 {
        seq![]
    } else {
        repeat_seq(s, (k - 1) as nat) + s
    }
}

/// `push [rsp + dist]`.
pub open spec fn push_stack_slot_spec(dist: u32) -> Seq<u8> {
    seq![0xffu8, 0xb4u8, 0x24u8] + le32(dist)
}

/// The start of a start-hook's trampoline: it saves the register arguments,
/// pushes copies of the stack arguments, calls `callback`, and restores.
pub open spec fn prologue_spec(callback: u64, num_args: nat) -> Seq<u8> {
    let k = stack_arg_count(num_args);
    let dist = (32 + 8 + 32 + k * 8) as u32;
    let val = (32 + k * 8) as u8;
    seq![0x51u8, 0x52u8, 0x41u8, 0x50u8, 0x41u8, 0x51u8] + repeat_seq(
        push_stack_slot_spec(dist),
        k,
    ) + seq![0x48u8, 0x83u8, 0xecu8, 0x20u8, 0x48u8, 0xb8u8] + le64(callback) + seq![
        0xffu8,
        0xd0u8,
        0x48u8,
        0x83u8,
        0xc4u8,
        val,
        0x41u8,
        0x59u8,
        0x41u8,
        0x58u8,
        0x5au8,
        0x59u8,
    ]
}

/// The copies of a seven-byte sequence: `k` of them, each at a multiple of
/// seven.
proof fn lemma_repeat_seq_copies(s: Seq<u8>, k: nat)
    requires
        s.len() == 7,
    ensures
        repeat_seq(s, k).len() == 7 * k,
        forall|i: int| 0 <= i < k ==> #[trigger] repeat_seq(s, k).subrange(7 * i, 7 * i + 7) == s,
    decreases k,
{
    if k > 0 {
        lemma_repeat_seq_copies(s, (k - 1) as nat);
        let prev = repeat_seq(s, (k - 1) as nat);
        assert forall|i: int| 0 <= i < k implies #[trigger] repeat_seq(s, k).subrange(
            7 * i,
            7 * i + 7,
        ) == s by {
            if i < k - 1 {
                assert(repeat_seq(s, k).subrange(7 * i, 7 * i + 7) =~= prev.subrange(7 * i, 7 * i + 7));
            } else {
                assert(repeat_seq(s, k).subrange(7 * i, 7 * i + 7) =~= s);
            }
        }
    }
}

/// The layout of a start-hook's trampoline prologue for a function of
/// `num_args` arguments, `k` of them on the stack: `push rcx, rdx, r8, r9`;
/// `k` copies of `push [rsp + 72 + 8 * k]`, each reading the next stack
/// argument at the same distance (every push moves the stack by eight);
/// `sub rsp, 32`; `mov rax, callback`; `call rax`; `add rsp, 32 + 8 * k`;
/// `pop r9, r8, rdx, rcx`.
pub proof fn lemma_prologue_layout(callback: u64, num_args: nat)
    requires
        stack_arg_count(num_args) * 8 + 72 <= u32::MAX,
    ensures
        ({
            let p = prologue_spec(callback, num_args);
            let k = stack_arg_count(num_args) as int;
            &&& p.len() == 32 + 7 * k
            &&& p.take(6) == seq![0x51u8, 0x52u8, 0x41u8, 0x50u8, 0x41u8, 0x51u8]
            &&& forall|i: int|
                0 <= i < k ==> #[trigger] p.subrange(6 + 7 * i, 13 + 7 * i) == seq![
                    0xffu8,
                    0xb4u8,
                    0x24u8,
                ] + le32((72 + 8 * k) as u32)
            &&& p.subrange(6 + 7 * k, 12 + 7 * k) == seq![0x48u8, 0x83u8, 0xecu8, 0x20u8, 0x48u8, 0xb8u8]
            &&& p.subrange(12 + 7 * k, 20 + 7 * k) == le64(callback)
            &&& p.subrange(20 + 7 * k, 25 + 7 * k) == seq![0xffu8, 0xd0u8, 0x48u8, 0x83u8, 0xc4u8]
            &&& 32 + 8 * k < 256 ==> p[25 + 7 * k] == 32 + 8 * k
            &&& p.subrange(26 + 7 * k, 32 + 7 * k) == seq![0x41u8, 0x59u8, 0x41u8, 0x58u8, 0x5au8, 0x59u8]
        }),
{
    let p = prologue_spec(callback, num_args);
    let k = stack_arg_count(num_args);
    let ki = k as int;
    let slot = push_stack_slot_spec((32 + 8 + 32 + k * 8) as u32);
    lemma_repeat_seq_copies(slot, k);
    let head = seq![0x51u8, 0x52u8, 0x41u8, 0x50u8, 0x41u8, 0x51u8];
    let rep = repeat_seq(slot, k);
    let tail = seq![0x48u8, 0x83u8, 0xecu8, 0x20u8, 0x48u8, 0xb8u8] + le64(callback) + seq![
        0xffu8,
        0xd0u8,
        0x48u8,
        0x83u8,
        0xc4u8,
        (32 + k * 8) as u8,
        0x41u8,
        0x59u8,
        0x41u8,
        0x58u8,
        0x5au8,
        0x59u8,
    ];
    assert(p =~= head + rep + tail);
    assert((72 + 8 * k) as u32 == (32 + 8 + 32 + k * 8) as u32);
    assert(p.take(6) =~= head);
    assert forall|i: int| 0 <= i < k implies #[trigger] p.subrange(6 + 7 * i, 13 + 7 * i) == seq![
        0xffu8,
        0xb4u8,
        0x24u8,
    ] + le32((72 + 8 * k) as u32) by {
        assert(p.subrange(6 + 7 * i, 13 + 7 * i) =~= rep.subrange(7 * i, 7 * i + 7));
    }
    assert(p.subrange(6 + 7 * ki, 12 + 7 * ki) =~= seq![0x48u8, 0x83u8, 0xecu8, 0x20u8, 0x48u8, 0xb8u8]);
    assert(p.subrange(12 + 7 * ki, 20 + 7 * ki) =~= le64(callback));
    assert(p.subrange(20 + 7 * ki, 25 + 7 * ki) =~= seq![0xffu8, 0xd0u8, 0x48u8, 0x83u8, 0xc4u8]);
    assert(p[25 + 7 * ki] == (32 + k * 8) as u8);
    assert(p.subrange(26 + 7 * ki, 32 + 7 * ki) =~= seq![0x41u8, 0x59u8, 0x41u8, 0x58u8, 0x5au8, 0x59u8]);
}

/// The code that a start-hook writes over the hooked code: a jump to the
/// trampoline, padded with three `nop`s.
pub open spec fn start_hook_code_spec(trampoline: u64) -> Seq<u8> {
    jump_rax_spec(trampoline) + seq![0x90u8, 0x90u8, 0x90u8]
}

/// The tail of an end-hook's trampoline: it passes the return value to
/// `callback` and returns.
pub open spec fn end_trampoline_spec(callback: u64) -> Seq<u8> {
    seq![0x50u8, 0x48u8, 0x89u8, 0xc1u8, 0x48u8, 0xb8u8] + le64(callback) + seq![
        0xffu8,
        0xd0u8,
        0x58u8,
        0xc3u8,
    ]
}

/// Whether the sizes that `hook_start` computes fit in a `usize`.
pub open spec fn start_sizes_fit(num_args: nat, offset_in_pattern: nat) -> bool {
    &&& stack_arg_count(num_args) * 8 + 72 <= usize::MAX
    &&& 32 + 7 * stack_arg_count(num_args) + offset_in_pattern + 12 <= usize::MAX
}

/// The trampoline prologue of a start-hook.
pub fn trampoline_prologue(callback: u64, num_args: usize) -> (r: Vec<u8>)
    requires
        stack_arg_count(num_args as nat) * 8 + 72 <= usize::MAX,
    ensures
        r@ == prologue_spec(callback, num_args as nat),
        r@.len() == 32 + 7 * stack_arg_count(num_args as nat),
{
    let mut code: Vec<u8> = Vec::new();
    code.push(0x51);
    code.push(0x52);
    code.push(0x41);
    code.push(0x50);
    code.push(0x41);
    code.push(0x51);
    let num_stack_args: usize = if num_args >= 4 {
        num_args - 4
    } else {
        0
    };
    let dist: usize = 32 + 8 + 32 + num_stack_args * 8;
    let ghost head = code@;
    let ghost slot = push_stack_slot_spec(dist as u32);
    let mut i: usize = 0;
    while i < num_stack_args
        invariant
            i <= num_stack_args,
            num_stack_args == stack_arg_count(num_args as nat),
            slot == push_stack_slot_spec(dist as u32),
            code@ == head + repeat_seq(slot, i as nat),
            head.len() == 6,
            code@.len() == 6 + 7 * i,
        decreases num_stack_args - i,
    {
        code.push(0xff);
        code.push(0xb4);
        code.push(0x24);
        push_le32(&mut code, dist as u32);
        proof {
            assert(repeat_seq(slot, (i + 1) as nat) == repeat_seq(slot, i as nat) + slot);
            assert(code@ =~= head + repeat_seq(slot, (i + 1) as nat));
        }
        i = i + 1;
    }
    let val: usize = 32 + num_stack_args * 8;
    code.push(0x48);
    code.push(0x83);
    code.push(0xec);
    code.push(0x20);
    code.push(0x48);
    code.push(0xb8);
    push_le64(&mut code, callback);
    code.push(0xff);
    code.push(0xd0);
    code.push(0x48);
    code.push(0x83);
    code.push(0xc4);
    code.push(val as u8);
    code.push(0x41);
    code.push(0x59);
    code.push(0x41);
    code.push(0x58);
    code.push(0x5a);
    code.push(0x59);
    assert(code@ =~= prologue_spec(callback, num_args as nat));
    code
}

/// Represents a hooked function: where the hook code goes, what it replaces,
/// and the trampoline it jumps to.
#[derive(Debug)]
pub struct Hook {
    /// Slice of memory that is overwritten by the hook code.
    pub hooked_slice: ProcessMemorySlice,
    /// Original code that is overwritten by the hook code, written back to
    /// unhook.
    pub original_code: Vec<u8>,
    /// Address of the trampoline in the executable page.
    pub trampoline: usize,
    /// The bytes written at the start of the trampoline.
    pub trampoline_code: Vec<u8>,
    /// The bytes written over the hooked slice.
    pub hook_code: Vec<u8>,
}

/// The outcome of hooking the start of a function whose pattern is found at
/// `pos` in module memory starting at `base`, with the page in state `page`.
pub open spec fn start_outcome(
    base: usize,
    pos: int,
    page: ExecutablePage,
    code_pattern: Seq<u8>,
    off: nat,
    callback: u64,
    num_args: nat,
    final_page: ExecutablePage,
    r: Result<Hook, HookError>,
) -> bool {
    let tlen = 32 + 7 * stack_arg_count(num_args) + off + 12;
    let (p2, a) = alloc_spec(page, tlen);
    &&& final_page == p2
    &&& match a {
        None => r == Err::<Hook, HookError>(HookError::Io(IoError::OutOfMemory)),
        Some(t) => if off != 15 {
            r == Err::<Hook, HookError>(HookError::Io(IoError::Other))
        } else {
            r matches Ok(h) && {
                &&& h.hooked_slice == ProcessMemorySlice { ptr: (base + pos) as usize, len: off as usize }
                &&& h.original_code@ == code_pattern.take(off as int)
                &&& h.trampoline == t
                &&& h.trampoline_code@ == prologue_spec(callback, num_args) + code_pattern.take(
                    off as int,
                ) + jump_rax_spec((base + pos + off) as u64)
                &&& h.hook_code@ == start_hook_code_spec(t as u64)
            }
        },
    }
}

/// Hooking the start of a function is defined (does not panic): the
/// replaced length lies within the pattern, or else the pattern does not
/// occur in `memory`, or the replaced code would run past the end of memory
/// from its first occurrence (without the addition overflowing).
pub open spec fn start_hook_defined(memory: Seq<u8>, pattern: Seq<u8>, off: nat) -> bool {
    off <= pattern.len() || forall|o: Option<usize>|
        #[trigger] is_first_occurrence(memory, pattern, o) ==> match o {
            None => true,
            Some(p) => memory.len() < p + off <= usize::MAX,
        }
}

/// Hook the start of a function.
///
/// The hooked function is found by `code_pattern` in `exe_module_memory`,
/// whose bytes are `memory`; the first `offset_in_pattern` bytes of the match
/// are replaced by a jump to a trampoline that calls `callback` with the
/// function's `num_args` arguments, runs the replaced code and jumps back.
pub fn hook_start(
    exe_module_memory: &ProcessMemorySlice,
    memory: &[u8],
    executable_page: &mut ExecutablePage,
    code_pattern: &[u8],
    offset_in_pattern: usize,
    callback: usize,
    num_args: usize,
) -> (r: Result<Hook, HookError>)
    requires
        exe_module_memory.wf(),
        memory@.len() == exe_module_memory.len,
        old(executable_page).wf(),
        start_hook_defined(memory@, code_pattern@, offset_in_pattern as nat),
        start_sizes_fit(num_args as nat, offset_in_pattern as nat),
        old(executable_page).allocated + 32 + 7 * stack_arg_count(num_args as nat)
            + offset_in_pattern + 12 <= usize::MAX,
    ensures
        final(executable_page).wf(),
        ({
            let mut_page = *final(executable_page);
            exists|o: Option<usize>|
                #[trigger] is_first_occurrence(memory@, code_pattern@, o) && match o {
                    None => r == Err::<Hook, HookError>(HookError::NotFound) && mut_page == *old(
                        executable_page,
                    ),
                    Some(pos) => if pos + offset_in_pattern > memory@.len() {
                        r == Err::<Hook, HookError>(HookError::Io(IoError::Other)) && mut_page
                            == *old(executable_page)
                    } else {
                        start_outcome(
                            exe_module_memory.ptr,
                            pos as int,
                            *old(executable_page),
                            code_pattern@,
                            offset_in_pattern as nat,
                            callback as u64,
                            num_args as nat,
                            mut_page,
                            r,
                        )
                    },
                }
        }),
{
    let found = memmem_find(memory, code_pattern);
    let pattern_offset = match found {
        None => {
            return Err(HookError::NotFound);
        },
        Some(p) => p,
    };
    assert(offset_in_pattern <= code_pattern@.len() || memory@.len() < pattern_offset
        + offset_in_pattern <= usize::MAX);
    let hooked_slice = match exe_module_memory.slice(
        pattern_offset..pattern_offset + offset_in_pattern,
    ) {
        Ok(s) => s,
        Err(e) => {
            return Err(HookError::Io(e));
        },
    };
    let mut original_code: Vec<u8> = Vec::new();
    push_all(&mut original_code, slice_subrange(code_pattern, 0, offset_in_pattern));
    assert(original_code@ =~= code_pattern@.take(offset_in_pattern as int));
    let prologue = trampoline_prologue(callback as u64, num_args);
    let return_addr = (hooked_slice.ptr + offset_in_pattern) as u64;
    let epilogue = jump_rax(return_addr);
    let trampoline = match executable_page.allocate(
        prologue.len() + original_code.len() + epilogue.len(),
    ) {
        Ok(t) => t,
        Err(e) => {
            return Err(HookError::Io(e));
        },
    };
    let mut trampoline_code: Vec<u8> = Vec::new();
    push_all(&mut trampoline_code, prologue.as_slice());
    push_all(&mut trampoline_code, original_code.as_slice());
    push_all(&mut trampoline_code, epilogue.as_slice());
    let mut hook_code = jump_rax(trampoline as u64);
    hook_code.push(0x90);
    hook_code.push(0x90);
    hook_code.push(0x90);
    assert(hook_code@ =~= start_hook_code_spec(trampoline as u64));
    if let Err(e) = hooked_slice.write_check(hook_code.as_slice()) {
        return Err(HookError::Io(e));
    }
    Ok(Hook { hooked_slice, original_code, trampoline, trampoline_code, hook_code })
}

/// The outcome of hooking the end of a function whose pattern is found at
/// `pos` in module memory starting at `base`, with the page in state `page`.
pub open spec fn end_outcome(
    base: usize,
    pos: int,
    page: ExecutablePage,
    code_pattern: Seq<u8>,
    off: nat,
    callback: u64,
    final_page: ExecutablePage,
    r: Result<Hook, HookError>,
) -> bool {
    let original = code_pattern.skip(off as int);
    let (p2, a) = alloc_spec(page, original.len() + 18);
    &&& final_page == p2
    &&& match a {
        None => r == Err::<Hook, HookError>(HookError::Io(IoError::OutOfMemory)),
        Some(t) => if original.len() != 12 {
            r == Err::<Hook, HookError>(HookError::Io(IoError::Other))
        } else {
            r matches Ok(h) && {
                &&& h.hooked_slice == ProcessMemorySlice {
                    ptr: (base + pos + off) as usize,
                    len: original.len() as usize,
                }
                &&& h.original_code@ == original
                &&& h.trampoline == t
                &&& h.trampoline_code@ == original.take(original.len() - 1) + end_trampoline_spec(
                    callback,
                )
                &&& h.hook_code@ == jump_rcx_spec(t as u64)
            }
        },
    }
}

/// Hook the end of a function.
///
/// The code from `offset_in_pattern` to the end of the match of
/// `code_pattern` (the function's last instructions, ending in `ret`) is
/// replaced by a jump to a trampoline that runs it without its `ret`, passes
/// the return value to `callback`, and returns.
pub fn hook_end(
    exe_module_memory: &ProcessMemorySlice,
    memory: &[u8],
    executable_page: &mut ExecutablePage,
    code_pattern: &[u8],
    offset_in_pattern: usize,
    callback: usize,
) -> (r: Result<Hook, HookError>)
    requires
        exe_module_memory.wf(),
        memory@.len() == exe_module_memory.len,
        old(executable_page).wf(),
        offset_in_pattern <= code_pattern@.len(),
        offset_in_pattern < code_pattern@.len() || forall|j: int|
            !#[trigger] occurs_at(memory@, code_pattern@, j),
        old(executable_page).allocated + code_pattern@.len() - offset_in_pattern + 18
            <= usize::MAX,
    ensures
        final(executable_page).wf(),
        ({
            let mut_page = *final(executable_page);
            exists|o: Option<usize>|
                #[trigger] is_first_occurrence(memory@, code_pattern@, o) && match o {
                    None => r == Err::<Hook, HookError>(HookError::NotFound) && mut_page == *old(
                        executable_page,
                    ),
                    Some(pos) => end_outcome(
                        exe_module_memory.ptr,
                        pos as int,
                        *old(executable_page),
                        code_pattern@,
                        offset_in_pattern as nat,
                        callback as u64,
                        mut_page,
                        r,
                    ),
                }
        }),
{
    let mut original_code: Vec<u8> = Vec::new();
    push_all(
        &mut original_code,
        slice_subrange(code_pattern, offset_in_pattern, code_pattern.len()),
    );
    assert(original_code@ =~= code_pattern@.skip(offset_in_pattern as int));
    let found = memmem_find(memory, code_pattern);
    let pattern_offset = match found {
        None => {
            return Err(HookError::NotFound);
        },
        Some(p) => p,
    };
    assert(occurs_at(memory@, code_pattern@, pattern_offset as int));
    let offset = pattern_offset + offset_in_pattern;
    let hooked_slice = match exe_module_memory.slice(offset..offset + original_code.len()) {
        Ok(s) => s,
        Err(e) => {
            return Err(HookError::Io(e));
        },
    };
    let mut tail: Vec<u8> = Vec::new();
    tail.push(0x50);
    tail.push(0x48);
    tail.push(0x89);
    tail.push(0xc1);
    tail.push(0x48);
    tail.push(0xb8);
    push_le64(&mut tail, callback as u64);
    tail.push(0xff);
    tail.push(0xd0);
    tail.push(0x58);
    tail.push(0xc3);
    assert(tail@ =~= end_trampoline_spec(callback as u64));
    let trampoline = match executable_page.allocate(original_code.len() + tail.len()) {
        Ok(t) => t,
        Err(e) => {
            return Err(HookError::Io(e));
        },
    };
    let mut trampoline_code: Vec<u8> = Vec::new();
    push_all(
        &mut trampoline_code,
        slice_subrange(original_code.as_slice(), 0, original_code.len() - 1),
    );
    push_all(&mut trampoline_code, tail.as_slice());
    assert(original_code@.subrange(0, original_code@.len() - 1) =~= original_code@.take(
        original_code@.len() - 1,
    ));
    let hook_code = jump_rcx(trampoline as u64);
    if let Err(e) = hooked_slice.write_check(hook_code.as_slice()) {
        return Err(HookError::Io(e));
    }
    Ok(Hook { hooked_slice, original_code, trampoline, trampoline_code, hook_code })
}

impl Hook {
    /// The bytes that unhooking writes back over the hooked slice: the
    /// original code.
    pub fn unhook_code(&self) -> (r: &[u8])
        ensures
            r@ == self.original_code@,
    {
        self.original_code.as_slice()
    }
}

/// A start-hook replaces exactly the code it saved: the hook code, the saved
/// original code and the hooked slice have the same length, the saved code is
/// what the module's memory `memory` held in the hooked slice (so unhooking
/// restores it), the trampoline runs the saved code, and it jumps back to the
/// first byte after the hooked slice.
pub proof fn lemma_start_hook_restorable(
    memory: Seq<u8>,
    base: usize,
    pos: int,
    page: ExecutablePage,
    code_pattern: Seq<u8>,
    off: nat,
    callback: u64,
    num_args: nat,
    final_page: ExecutablePage,
    h: Hook,
)
    requires
        start_outcome(
            base,
            pos,
            page,
            code_pattern,
            off,
            callback,
            num_args,
            final_page,
            Ok::<Hook, HookError>(h),
        ),
        off <= code_pattern.len(),
        occurs_at(memory, code_pattern, pos),
        base + pos + off <= usize::MAX,
    ensures
        h.hook_code@.len() == h.hooked_slice.len,
        h.original_code@.len() == h.hooked_slice.len,
        h.hooked_slice.ptr == base + pos,
        memory.subrange(pos, pos + h.hooked_slice.len) == h.original_code@,
        h.trampoline_code@.subrange(
            prologue_spec(callback, num_args).len() as int,
            (prologue_spec(callback, num_args).len() + off) as int,
        ) == h.original_code@,
        h.trampoline_code@.skip(h.trampoline_code@.len() - 12) == jump_rax_spec(
            (h.hooked_slice.ptr + h.hooked_slice.len) as u64,
        ),
{
    let pro = prologue_spec(callback, num_args);
    let orig = code_pattern.take(off as int);
    assert(memory.subrange(pos, pos + code_pattern.len()).take(off as int) =~= memory.subrange(
        pos,
        pos + off,
    ));
    assert((pro + orig + jump_rax_spec((base + pos + off) as u64)).subrange(
        pro.len() as int,
        (pro.len() + off) as int,
    ) =~= orig);
    assert((pro + orig + jump_rax_spec((base + pos + off) as u64)).skip(
        pro.len() + off + 12 - 12,
    ) =~= jump_rax_spec((base + pos + off) as u64));
}

/// An end-hook replaces exactly the code it saved, the saved code is what
/// the module's memory `memory` held in the hooked slice (so unhooking
/// restores it), and its trampoline runs that code without its last byte (the
/// `ret`) before calling back.
pub proof fn lemma_end_hook_restorable(
    memory: Seq<u8>,
    base: usize,
    pos: int,
    page: ExecutablePage,
    code_pattern: Seq<u8>,
    off: nat,
    callback: u64,
    final_page: ExecutablePage,
    h: Hook,
)
    requires
        end_outcome(base, pos, page, code_pattern, off, callback, final_page, Ok::<Hook, HookError>(h)),
        off < code_pattern.len(),
        occurs_at(memory, code_pattern, pos),
        base + pos + code_pattern.len() <= usize::MAX,
    ensures
        h.hook_code@.len() == h.hooked_slice.len,
        h.original_code@.len() == h.hooked_slice.len,
        h.hooked_slice.ptr == base + pos + off,
        memory.subrange(pos + off, pos + off + h.hooked_slice.len) == h.original_code@,
        h.trampoline_code@.take(h.original_code@.len() - 1) == h.original_code@.take(
            h.original_code@.len() - 1,
        ),
{
    let orig = code_pattern.skip(off as int);
    assert(memory.subrange(pos, pos + code_pattern.len()).skip(off as int) =~= memory.subrange(
        pos + off,
        pos + code_pattern.len(),
    ));
    assert((orig.take(orig.len() - 1) + end_trampoline_spec(callback)).take(orig.len() - 1)
        =~= orig.take(orig.len() - 1));
}

} // verus!
