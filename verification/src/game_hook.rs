//! The hooks through which the client learns of the editor's actions:
//! a block or an item placed or removed.
//!
//! Each hook is a code pattern of the game, the part of it that the hook
//! replaces, and the machine code of its trampoline, which calls back into
//! the client with the client's context.
use vstd::prelude::*;
use crate::code::{jump_rax, jump_rax_spec, jump_rcx, jump_rcx_spec, le64, push_all, push_le64};
use crate::hook::{is_first_occurrence, memmem_find};
use crate::pattern::ModuleMemory;
use vstd::slice::slice_subrange;

verus! {

/// Where a hook is placed: a code pattern and the part of it that the hook
/// code replaces.
#[derive(Debug)]
pub struct GameHook {
    pub code_pattern: Vec<u8>,
    /// Offset in the pattern of the replaced code.
    pub code_pattern_offset: usize,
    /// Length of the replaced code.
    pub original_len: usize,
    /// The hook code jumps through `rcx` (the hooks on a function's end,
    /// where `rax` holds the return value) rather than through `rax`.
    pub jump_rcx: bool,
}

/// The address of the hooked code and the address just past it.
#[derive(Debug, Clone, Copy, PartialEq, Eq)]
pub struct HookSite {
    pub ptr: usize,
    pub end_ptr: usize,
}

impl GameHook {
    /// The replaced code lies within the pattern.
    pub open spec fn wf(&self) -> bool {
        self.code_pattern_offset + self.original_len <= self.code_pattern@.len()
    }

    /// The replaced code.
    pub open spec fn original_spec(&self) -> Seq<u8> {
        self.code_pattern@.subrange(
            self.code_pattern_offset as int,
            self.code_pattern_offset + self.original_len,
        )
    }

    /// The code that the hook replaces (written back when unhooking).
    pub fn original_code(&self) -> (r: Vec<u8>)
        requires
            self.wf(),
        ensures
            r@ == self.original_spec(),
    {
        let n = self.code_pattern.len();
        assert(self.code_pattern_offset + self.original_len <= n);
        let mut v: Vec<u8> = Vec::new();
        push_all(
            &mut v,
            slice_subrange(
                self.code_pattern.as_slice(),
                self.code_pattern_offset,
                self.code_pattern_offset + self.original_len,
            ),
        );
        v
    }

    /// The code written over the hooked code: an absolute jump to the
    /// trampoline at `trampoline`, through `rcx` or through `rax`.
    pub open spec fn hook_code_spec(&self, trampoline: u64) -> Seq<u8> {
        if self.jump_rcx {
            jump_rcx_spec(trampoline)
        } else {
            jump_rax_spec(trampoline)
        }
    }

    /// The code written over the hooked code, for the trampoline at
    /// `trampoline`.
    pub fn hook_code(&self, trampoline: u64) -> (r: Vec<u8>)
        ensures
            r@ == self.hook_code_spec(trampoline),
    {
        if self.jump_rcx {
            jump_rcx(trampoline)
        } else {
            jump_rax(trampoline)
        }
    }

    /// Finds the hooked code: at the first occurrence of the pattern, moved
    /// on by the offset of the replaced code. `None` when the pattern does not
    /// occur.
    pub fn locate(&self, memory: &ModuleMemory) -> (r: Option<HookSite>)
        requires
            self.wf(),
            memory.wf(),
        ensures
            exists|o: Option<usize>|
                #[trigger] is_first_occurrence(memory.slice@, self.code_pattern@, o) && match o {
                    None => r is None,
                    Some(pos) => r == Some(
                        HookSite {
                            ptr: (memory.base + pos + self.code_pattern_offset) as usize,
                            end_ptr: (memory.base + pos + self.code_pattern_offset
                                + self.original_len) as usize,
                        },
                    ),
                },
    {
        match memmem_find(memory.slice, self.code_pattern.as_slice()) {
            None => None,
            Some(pos) => {
                let ptr = memory.base + pos + self.code_pattern_offset;
                Some(HookSite { ptr, end_ptr: ptr + self.original_len })
            },
        }
    }
}

/// Unhooking restores the game's code: where `locate` places a hook (the
/// first occurrence `pos` of the pattern, moved on by the offset), the
/// module's memory holds exactly the code that `original_code` returns, and the
/// hooked code ends `original_len` bytes further.
pub proof fn lemma_unhook_restores(hook: GameHook, memory: ModuleMemory, pos: usize)
    requires
        hook.wf(),
        memory.wf(),
        is_first_occurrence(memory.slice@, hook.code_pattern@, Some(pos)),
    ensures
        ({
            let start = pos + hook.code_pattern_offset;
            let end = start + hook.original_len;
            &&& end <= memory.slice@.len()
            &&& memory.slice@.subrange(start, end) == hook.original_spec()
        }),
{
    let n = hook.code_pattern@.len();
    let start = pos + hook.code_pattern_offset;
    let end = start + hook.original_len;
    assert(memory.slice@.subrange(pos as int, pos + n).subrange(
        hook.code_pattern_offset as int,
        hook.code_pattern_offset + hook.original_len,
    ) =~= memory.slice@.subrange(start, end));
}

/// The hook on the end of the game's block placement; its hook code jumps
/// through `rcx`, keeping the placed block in `rax`.
pub fn place_block_hook() -> (r: GameHook)
    ensures
        r.wf(),
        r.code_pattern@ == seq![
            0x4cu8, 0x8du8, 0x9cu8, 0x24u8, 0xc0u8, 0x00u8, 0x00u8, 0x00u8, 0x49u8, 0x8bu8, 0x5bu8, 0x38u8, 0x49u8, 0x8bu8, 0x73u8, 0x48u8, 0x49u8, 0x8bu8, 0xe3u8, 0x41u8, 0x5fu8, 0x41u8, 0x5eu8, 0x41u8, 0x5du8, 0x5fu8, 0x5du8, 0xc3u8,
        ],
        r.code_pattern@.len() == 28,
        r.code_pattern_offset == 16,
        r.original_len == 12,
        r.jump_rcx == true,
{
    let code_pattern = vec![
        0x4cu8, 0x8d, 0x9c, 0x24, 0xc0, 0x00, 0x00, 0x00, 0x49, 0x8b, 0x5b, 0x38, 0x49, 0x8b,
        0x73, 0x48, 0x49, 0x8b, 0xe3, 0x41, 0x5f, 0x41, 0x5e, 0x41, 0x5d, 0x5f, 0x5d, 0xc3,
    ];
    GameHook { code_pattern, code_pattern_offset: 16, original_len: 12, jump_rcx: true }
}

/// Trampoline of the block-placement hook: the replaced code up to its
/// `ret`, then `callback(context, placed block)` with the result register
/// saved, then `ret`.
pub open spec fn place_block_trampoline_spec(original: Seq<u8>, context: u64, callback: u64) -> Seq<
    u8,
> {
    original.take(11) + seq![0x50u8, 0x48u8, 0xb9u8] + le64(context) + seq![
        0x48u8,
        0x89u8,
        0xc2u8,
        0x48u8,
        0xb8u8,
    ] + le64(callback) + seq![0xffu8, 0xd0u8, 0x58u8, 0xc3u8]
}

/// Builds the trampoline of the block-placement hook.
pub fn place_block_trampoline_code(original_code: &[u8], context: u64, callback: u64) -> (r: Vec<
    u8,
>)
    requires
        original_code@.len() >= 11,
    ensures
        r@ == place_block_trampoline_spec(original_code@, context, callback),
{
    let mut code: Vec<u8> = Vec::new();
    push_all(&mut code, slice_subrange(original_code, 0, 11));
    code.push(0x50);
    code.push(0x48);
    code.push(0xb9);
    push_le64(&mut code, context);
    code.push(0x48);
    code.push(0x89);
    code.push(0xc2);
    code.push(0x48);
    code.push(0xb8);
    push_le64(&mut code, callback);
    code.push(0xff);
    code.push(0xd0);
    code.push(0x58);
    code.push(0xc3);
    assert(original_code@.subrange(0, 11) =~= original_code@.take(11));
    assert(code@ =~= place_block_trampoline_spec(original_code@, context, callback));
    code
}

/// The hook on the start of the game's block removal; its hook code jumps
/// through `rax`.
pub fn remove_block_hook() -> (r: GameHook)
    ensures
        r.wf(),
        r.code_pattern@ == seq![
            0x48u8, 0x89u8, 0x5cu8, 0x24u8, 0x08u8, 0x48u8, 0x89u8, 0x6cu8, 0x24u8, 0x10u8, 0x48u8, 0x89u8, 0x74u8, 0x24u8, 0x18u8, 0x57u8, 0x48u8, 0x83u8, 0xecu8, 0x40u8, 0x83u8, 0x7cu8, 0x24u8, 0x70u8, 0x00u8,
        ],
        r.code_pattern@.len() == 25,
        r.code_pattern_offset == 0,
        r.original_len == 15,
        r.jump_rcx == false,
{
    let code_pattern = vec![
        0x48u8, 0x89, 0x5c, 0x24, 0x08, 0x48, 0x89, 0x6c, 0x24, 0x10, 0x48, 0x89, 0x74, 0x24,
        0x18, 0x57, 0x48, 0x83, 0xec, 0x40, 0x83, 0x7c, 0x24, 0x70, 0x00,
    ];
    GameHook { code_pattern, code_pattern_offset: 0, original_len: 15, jump_rcx: false }
}

/// The hook on the start of the game's item removal; its hook code jumps
/// through `rax`.
pub fn remove_item_hook() -> (r: GameHook)
    ensures
        r.wf(),
        r.code_pattern@ == seq![
            0x48u8, 0x89u8, 0x5cu8, 0x24u8, 0x08u8, 0x57u8, 0x48u8, 0x83u8, 0xecu8, 0x30u8, 0x48u8, 0x8bu8, 0xfau8, 0x48u8, 0x8bu8, 0xd9u8, 0x48u8, 0x85u8, 0xd2u8, 0x0fu8, 0x84u8, 0xe6u8, 0x00u8, 0x00u8, 0x00u8,
        ],
        r.code_pattern@.len() == 25,
        r.code_pattern_offset == 0,
        r.original_len == 13,
        r.jump_rcx == false,
{
    let code_pattern = vec![
        0x48u8, 0x89, 0x5c, 0x24, 0x08, 0x57, 0x48, 0x83, 0xec, 0x30, 0x48, 0x8b, 0xfa, 0x48,
        0x8b, 0xd9, 0x48, 0x85, 0xd2, 0x0f, 0x84, 0xe6, 0x00, 0x00, 0x00,
    ];
    GameHook { code_pattern, code_pattern_offset: 0, original_len: 13, jump_rcx: false }
}

/// Trampoline of a removal hook: the replaced code, then, with the register
/// arguments saved and `shadow` bytes of stack reserved,
/// `callback(context, removed object)`, then a jump back to `hook_end`.
pub open spec fn removal_trampoline_spec(
    original: Seq<u8>,
    shadow: u8,
    context: u64,
    callback: u64,
    hook_end: u64,
) -> Seq<u8> {
    original + seq![
        0x51u8,
        0x52u8,
        0x41u8,
        0x50u8,
        0x41u8,
        0x51u8,
        0x48u8,
        0x83u8,
        0xecu8,
        shadow,
        0x48u8,
        0xb9u8,
    ] + le64(context) + seq![0x48u8, 0xb8u8] + le64(callback) + seq![
        0xffu8,
        0xd0u8,
        0x48u8,
        0x83u8,
        0xc4u8,
        shadow,
        0x41u8,
        0x59u8,
        0x41u8,
        0x58u8,
        0x5au8,
        0x59u8,
    ] + jump_rax_spec(hook_end)
}

/// The layout of a removal trampoline for replaced code of length `n`: the
/// replaced code; `push rcx, rdx, r8, r9`; `sub rsp, shadow`; `mov rcx,
/// context`; `mov rax, callback`; `call rax`; `add rsp, shadow`, releasing
/// exactly the stack that was reserved; `pop r9, r8, rdx, rcx`; and a jump back
/// to `hook_end`. In particular bytes `n + 9` and `n + 35` are both `shadow`.
pub proof fn lemma_removal_trampoline_layout(
    original: Seq<u8>,
    shadow: u8,
    context: u64,
    callback: u64,
    hook_end: u64,
)
    ensures
        ({
            let r = removal_trampoline_spec(original, shadow, context, callback, hook_end);
            let n = original.len() as int;
            &&& r.len() == n + 54
            &&& r.take(n) == original
            &&& r.subrange(n, n + 6) == seq![0x51u8, 0x52u8, 0x41u8, 0x50u8, 0x41u8, 0x51u8]
            &&& r.subrange(n + 6, n + 10) == seq![0x48u8, 0x83u8, 0xecu8, shadow]
            &&& r.subrange(n + 10, n + 12) == seq![0x48u8, 0xb9u8]
            &&& r.subrange(n + 12, n + 20) == le64(context)
            &&& r.subrange(n + 20, n + 22) == seq![0x48u8, 0xb8u8]
            &&& r.subrange(n + 22, n + 30) == le64(callback)
            &&& r.subrange(n + 30, n + 32) == seq![0xffu8, 0xd0u8]
            &&& r.subrange(n + 32, n + 36) == seq![0x48u8, 0x83u8, 0xc4u8, shadow]
            &&& r.subrange(n + 36, n + 42) == seq![0x41u8, 0x59u8, 0x41u8, 0x58u8, 0x5au8, 0x59u8]
            &&& r.subrange(n + 42, n + 54) == jump_rax_spec(hook_end)
            &&& r[n + 9] == shadow
            &&& r[n + 35] == shadow
        }),
{
    let r = removal_trampoline_spec(original, shadow, context, callback, hook_end);
    let n = original.len() as int;
    assert(r.len() == n + 54);
    assert(r.take(n) =~= original);
    assert(r.subrange(n, n + 6) =~= seq![0x51u8, 0x52u8, 0x41u8, 0x50u8, 0x41u8, 0x51u8]);
    assert(r.subrange(n + 6, n + 10) =~= seq![0x48u8, 0x83u8, 0xecu8, shadow]);
    assert(r.subrange(n + 10, n + 12) =~= seq![0x48u8, 0xb9u8]);
    assert(r.subrange(n + 12, n + 20) =~= le64(context));
    assert(r.subrange(n + 20, n + 22) =~= seq![0x48u8, 0xb8u8]);
    assert(r.subrange(n + 22, n + 30) =~= le64(callback));
    assert(r.subrange(n + 30, n + 32) =~= seq![0xffu8, 0xd0u8]);
    assert(r.subrange(n + 32, n + 36) =~= seq![0x48u8, 0x83u8, 0xc4u8, shadow]);
    assert(r.subrange(n + 36, n + 42) =~= seq![0x41u8, 0x59u8, 0x41u8, 0x58u8, 0x5au8, 0x59u8]);
    assert(r.subrange(n + 42, n + 54) =~= jump_rax_spec(hook_end));
}

fn removal_trampoline(
    original_code: &[u8],
    shadow: u8,
    context: u64,
    callback: u64,
    hook_end: u64,
) -> (r: Vec<u8>)
    ensures
        r@ == removal_trampoline_spec(original_code@, shadow, context, callback, hook_end),
{
    let mut code: Vec<u8> = Vec::new();
    push_all(&mut code, original_code);
    code.push(0x51);
    code.push(0x52);
    code.push(0x41);
    code.push(0x50);
    code.push(0x41);
    code.push(0x51);
    code.push(0x48);
    code.push(0x83);
    code.push(0xec);
    code.push(shadow);
    code.push(0x48);
    code.push(0xb9);
    push_le64(&mut code, context);
    code.push(0x48);
    code.push(0xb8);
    push_le64(&mut code, callback);
    code.push(0xff);
    code.push(0xd0);
    code.push(0x48);
    code.push(0x83);
    code.push(0xc4);
    code.push(shadow);
    code.push(0x41);
    code.push(0x59);
    code.push(0x41);
    code.push(0x58);
    code.push(0x5a);
    code.push(0x59);
    code.push(0x48);
    code.push(0xb8);
    push_le64(&mut code, hook_end);
    code.push(0xff);
    code.push(0xe0);
    assert(code@ =~= removal_trampoline_spec(original_code@, shadow, context, callback, hook_end));
    code
}

/// Builds the trampoline of the block-removal hook (40 bytes of stack reserved).
pub fn remove_block_trampoline_code(
    original_code: &[u8],
    context: u64,
    callback: u64,
    hook_end: u64,
) -> (r: Vec<u8>)
    ensures
        r@ == removal_trampoline_spec(original_code@, 0x28u8, context, callback, hook_end),
{
    removal_trampoline(original_code, 0x28, context, callback, hook_end)
}

/// Builds the trampoline of the item-removal hook (32 bytes of stack reserved).
pub fn remove_item_trampoline_code(
    original_code: &[u8],
    context: u64,
    callback: u64,
    hook_end: u64,
) -> (r: Vec<u8>)
    ensures
        r@ == removal_trampoline_spec(original_code@, 0x20u8, context, callback, hook_end),
{
    removal_trampoline(original_code, 0x20, context, callback, hook_end)
}

/// The hook on the end of the game's item placement; its hook code jumps
/// through `rcx`, keeping the result in `rax`.
pub fn place_item_hook() -> (r: GameHook)
    ensures
        r.wf(),
        r.code_pattern@ == seq![
            0x33u8, 0xc0u8, 0x4cu8, 0x8bu8, 0x74u8, 0x24u8, 0x50u8, 0x48u8, 0x8bu8, 0x5cu8, 0x24u8, 0x58u8, 0x48u8, 0x8bu8, 0x6cu8, 0x24u8, 0x60u8, 0x48u8, 0x8bu8, 0x74u8, 0x24u8, 0x68u8, 0x48u8, 0x83u8, 0xc4u8, 0x40u8, 0x5fu8, 0xc3u8,
        ],
        r.code_pattern@.len() == 28,
        r.code_pattern_offset == 7,
        r.original_len == 21,
        r.jump_rcx == true,
{
    let code_pattern = vec![
        0x33u8, 0xc0, 0x4c, 0x8b, 0x74, 0x24, 0x50, 0x48, 0x8b, 0x5c, 0x24, 0x58, 0x48, 0x8b,
        0x6c, 0x24, 0x60, 0x48, 0x8b, 0x74, 0x24, 0x68, 0x48, 0x83, 0xc4, 0x40, 0x5f, 0xc3,
    ];
    GameHook { code_pattern, code_pattern_offset: 7, original_len: 21, jump_rcx: true }
}

/// Trampoline of the item-placement hook: the placed item into `rdx`, the
/// replaced code up to its `pop rdi; ret`, then
/// `callback(context, item, success)`, then `pop rdi; ret`.
pub open spec fn place_item_trampoline_spec(original: Seq<u8>, context: u64, callback: u64) -> Seq<
    u8,
> {
    seq![0x48u8, 0x89u8, 0xdau8] + original.take(19) + seq![0x50u8, 0x50u8, 0x48u8, 0xb9u8]
        + le64(context) + seq![0x49u8, 0x89u8, 0xc0u8, 0x48u8, 0xb8u8] + le64(callback) + seq![
        0xffu8,
        0xd0u8,
        0x58u8,
        0x58u8,
        0x5fu8,
        0xc3u8,
    ]
}

/// Builds the trampoline of the item-placement hook.
pub fn place_item_trampoline_code(original_code: &[u8], context: u64, callback: u64) -> (r: Vec<
    u8,
>)
    requires
        original_code@.len() >= 19,
    ensures
        r@ == place_item_trampoline_spec(original_code@, context, callback),
{
    let mut code: Vec<u8> = Vec::new();
    code.push(0x48);
    code.push(0x89);
    code.push(0xda);
    push_all(&mut code, slice_subrange(original_code, 0, 19));
    code.push(0x50);
    code.push(0x50);
    code.push(0x48);
    code.push(0xb9);
    push_le64(&mut code, context);
    code.push(0x49);
    code.push(0x89);
    code.push(0xc0);
    code.push(0x48);
    code.push(0xb8);
    push_le64(&mut code, callback);
    code.push(0xff);
    code.push(0xd0);
    code.push(0x58);
    code.push(0x58);
    code.push(0x5f);
    code.push(0xc3);
    assert(original_code@.subrange(0, 19) =~= original_code@.take(19));
    assert(code@ =~= place_item_trampoline_spec(original_code@, context, callback));
    code
}

} // verus!
