//! Game functions: where they are found in the module's memory, and the
//! argument buffers of the script API call that opens a new map.
use vstd::prelude::*;
use crate::code::{le64, push_le64};
use crate::pattern::{find_tokens, first_match, parse_pattern, pattern_spec, ModuleMemory};
use vstd::string::StringSliceAdditionalSpecFns;

verus! {

/// Whether `r` is the address of the function found by `pattern`: the
/// address of the pattern's first match moved back by `back` bytes; `None`
/// when the pattern does not parse, is longer than the memory, or is not found.
pub open spec fn fn_located(
    base: usize,
    mem: Seq<u8>,
    pattern: Seq<u8>,
    back: usize,
    r: Option<usize>,
) -> bool {
    match pattern_spec(pattern) {
        Err(_) => r is None,
        Ok(t) => if t.len() > mem.len() {
            r is None
        } else {
            match r {
                None => first_match(mem, t, None),
                Some(addr) => addr + back >= base && first_match(
                    mem,
                    t,
                    Some((addr + back - base) as usize),
                ),
            }
        },
    }
}

fn locate_fn(memory: &ModuleMemory, pattern: &str, back: usize) -> (r: Option<usize>)
    requires
        memory.wf(),
        memory.base >= back,
    ensures
        fn_located(memory.base, memory.slice@, pattern.spec_bytes(), back, r),
{
    let tokens = match parse_pattern(pattern) {
        Ok(t) => t,
        Err(_) => {
            return None;
        },
    };
    if tokens.len() > memory.slice.len() {
        return None;
    }
    match find_tokens(memory.slice, &tokens) {
        None => None,
        Some(off) => {
            let addr = memory.base + off - back;
            assert((addr + back - memory.base) as usize == off);
            Some(addr)
        },
    }
}

/// The script API function that opens the map editor on a new map.
#[derive(Debug, Clone, Copy)]
pub struct EditNewMap2Fn {
    pub addr: usize,
}

impl EditNewMap2Fn {
    /// Finds the function 754 bytes before its pattern.
    pub fn find(main_module_memory: &ModuleMemory) -> (r: Option<Self>)
        requires
            main_module_memory.wf(),
            main_module_memory.base >= 754,
        ensures
            fn_located(
                main_module_memory.base,
                main_module_memory.slice@,
                "66 0f 7f 44 24 70 e8 ?? ?? ?? ?? 8b 4d 2c".spec_bytes(),
                754,
                match r {
                    Some(f) => Some(f.addr),
                    None => None,
                },
            ),
    {
        match locate_fn(main_module_memory, "66 0f 7f 44 24 70 e8 ?? ?? ?? ?? 8b 4d 2c", 754) {
            Some(addr) => Some(EditNewMap2Fn { addr }),
            None => None,
        }
    }
}

/// The function that returns to the main menu.
#[derive(Debug, Clone, Copy)]
pub struct BackToMainMenuFn {
    pub addr: usize,
}

impl BackToMainMenuFn {
    /// Finds the function at its pattern.
    pub fn find(main_module_memory: &ModuleMemory) -> (r: Option<Self>)
        requires
            main_module_memory.wf(),
        ensures
            fn_located(
                main_module_memory.base,
                main_module_memory.slice@,
                "48 8b 89 40 03 00 00 33 d2 e9 ?? ?? ?? ??".spec_bytes(),
                0,
                match r {
                    Some(f) => Some(f.addr),
                    None => None,
                },
            ),
    {
        match locate_fn(main_module_memory, "48 8b 89 40 03 00 00 33 d2 e9 ?? ?? ?? ??", 0) {
            Some(addr) => Some(BackToMainMenuFn { addr }),
            None => None,
        }
    }
}

/// Function to place a block using the default block mode.
#[derive(Debug, Clone, Copy)]
pub struct PlaceBlockFn {
    pub addr: usize,
}

impl PlaceBlockFn {
    /// Finds the function at its pattern.
    pub fn find(main_module_memory: &ModuleMemory) -> (r: Option<Self>)
        requires
            main_module_memory.wf(),
        ensures
            fn_located(
                main_module_memory.base,
                main_module_memory.slice@,
                "4c 8b dc 55 53 56 41 54 41 56 49 8d 6b d1".spec_bytes(),
                0,
                match r {
                    Some(f) => Some(f.addr),
                    None => None,
                },
            ),
    {
        match locate_fn(main_module_memory, "4c 8b dc 55 53 56 41 54 41 56 49 8d 6b d1", 0) {
            Some(addr) => Some(PlaceBlockFn { addr }),
            None => None,
        }
    }
}

/// Function to place an item.
#[derive(Debug, Clone, Copy)]
pub struct PlaceItemFn {
    pub addr: usize,
}

impl PlaceItemFn {
    /// Finds the function at its pattern.
    pub fn find(main_module_memory: &ModuleMemory) -> (r: Option<Self>)
        requires
            main_module_memory.wf(),
        ensures
            fn_located(
                main_module_memory.base,
                main_module_memory.slice@,
                "48 89 5c 24 10 48 89 6c 24 18 48 89 74 24 20 57 48 83 ec 40 49 8b f9".spec_bytes(),
                0,
                match r {
                    Some(f) => Some(f.addr),
                    None => None,
                },
            ),
    {
        match locate_fn(
            main_module_memory,
            "48 89 5c 24 10 48 89 6c 24 18 48 89 74 24 20 57 48 83 ec 40 49 8b f9",
            0,
        ) {
            Some(addr) => Some(PlaceItemFn { addr }),
            None => None,
        }
    }
}

/// Function that loads the object stored in a file of the game's file system.
#[derive(Debug, Clone, Copy)]
pub struct LoadFidFileFn {
    pub addr: usize,
}

impl LoadFidFileFn {
    /// Finds the function at its pattern.
    pub fn find(main_module_memory: &ModuleMemory) -> (r: Option<Self>)
        requires
            main_module_memory.wf(),
        ensures
            fn_located(
                main_module_memory.base,
                main_module_memory.slice@,
                "40 53 56 57 48 81 ec b0 00 00 00 48 8b 05 ?? ?? ?? ?? 48 33 c4 48 89 84 24 a0 00 00 00 49 8b f8".spec_bytes(),
                0,
                match r {
                    Some(f) => Some(f.addr),
                    None => None,
                },
            ),
    {
        match locate_fn(
            main_module_memory,
            "40 53 56 57 48 81 ec b0 00 00 00 48 8b 05 ?? ?? ?? ?? 48 33 c4 48 89 84 24 a0 00 00 00 49 8b f8",
            0,
        ) {
            Some(addr) => Some(LoadFidFileFn { addr }),
            None => None,
        }
    }
}

/// Function that generates the block info of a custom block's item model.
#[derive(Debug, Clone, Copy)]
pub struct GenerateBlockInfoFn {
    pub addr: usize,
}

impl GenerateBlockInfoFn {
    /// Finds the function at its pattern.
    pub fn find(main_module_memory: &ModuleMemory) -> (r: Option<Self>)
        requires
            main_module_memory.wf(),
        ensures
            fn_located(
                main_module_memory.base,
                main_module_memory.slice@,
                "40 53 48 83 ec 20 83 b9 b0 02 00 00 00".spec_bytes(),
                0,
                match r {
                    Some(f) => Some(f.addr),
                    None => None,
                },
            ),
    {
        match locate_fn(main_module_memory, "40 53 48 83 ec 20 83 b9 b0 02 00 00 00", 0) {
            Some(addr) => Some(GenerateBlockInfoFn { addr }),
            None => None,
        }
    }
}

/// One entry of a script call's extra arguments: a pointer to the argument and
/// its type tag, padded to eight bytes.
pub open spec fn extra_entry(addr: u64, tag: u8) -> Seq<u8> {
    le64(addr) + seq![tag, 0u8, 0u8, 0u8, 0u8, 0u8, 0u8, 0u8]
}

/// The extra arguments of the call that opens a new map: the script strings
/// at `a5`, `a4`, `a3` (tag 0x7e) and `a2`, `a1` (tag 0x7d), in that order.
pub open spec fn edit_new_map_extra_args_spec(a1: u64, a2: u64, a3: u64, a4: u64, a5: u64) -> Seq<
    u8,
> {
    extra_entry(a5, 0x7eu8) + extra_entry(a4, 0x7eu8) + extra_entry(a3, 0x7eu8) + extra_entry(
        a2,
        0x7du8,
    ) + extra_entry(a1, 0x7du8)
}

fn push_extra_entry(v: &mut Vec<u8>, addr: u64, tag: u8)
    ensures
        final(v)@ == old(v)@ + extra_entry(addr, tag),
{
    push_le64(v, addr);
    v.push(tag);
    v.push(0);
    v.push(0);
    v.push(0);
    v.push(0);
    v.push(0);
    v.push(0);
    v.push(0);
    assert(v@ =~= old(v)@ + extra_entry(addr, tag));
}

/// Builds the extra-argument buffer of the call that opens a new map, from
/// the addresses of its first five arguments.
pub fn edit_new_map_extra_args(a1: u64, a2: u64, a3: u64, a4: u64, a5: u64) -> (r: Vec<u8>)
    ensures
        r@ == edit_new_map_extra_args_spec(a1, a2, a3, a4, a5),
{
    let mut v: Vec<u8> = Vec::new();
    push_extra_entry(&mut v, a5, 0x7e);
    push_extra_entry(&mut v, a4, 0x7e);
    push_extra_entry(&mut v, a3, 0x7e);
    push_extra_entry(&mut v, a2, 0x7d);
    push_extra_entry(&mut v, a1, 0x7d);
    assert(v@ =~= edit_new_map_extra_args_spec(a1, a2, a3, a4, a5));
    v
}

/// The argument buffer of a script call: a header naming nine arguments and
/// their types, the `context` word, the addresses of the last three arguments
/// and of the extra-argument buffer.
pub open spec fn script_args_spec(context: u64, a8: u64, a7: u64, a6: u64, extra: u64) -> Seq<u8> {
    seq![1u8, 9u8, 0u8, 0u8, 0x7du8, 0x7eu8, 0x71u8, 0u8] + le64(context) + le64(a8) + le64(a7)
        + le64(a6) + le64(extra)
}

/// Builds the argument buffer of a script call.
pub fn script_args(context: u64, a8: u64, a7: u64, a6: u64, extra: u64) -> (r: Vec<u8>)
    ensures
        r@ == script_args_spec(context, a8, a7, a6, extra),
{
    let mut v: Vec<u8> = Vec::new();
    v.push(1);
    v.push(9);
    v.push(0);
    v.push(0);
    v.push(0x7d);
    v.push(0x7e);
    v.push(0x71);
    v.push(0);
    push_le64(&mut v, context);
    push_le64(&mut v, a8);
    push_le64(&mut v, a7);
    push_le64(&mut v, a6);
    push_le64(&mut v, extra);
    assert(v@ =~= script_args_spec(context, a8, a7, a6, extra));
    v
}

} // verus!
