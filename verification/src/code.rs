//! Building blocks of the x86-64 machine code that hooks install:
//! little-endian immediates and absolute jumps.
use vstd::prelude::*;

verus! {

/// The eight little-endian bytes of `x`.
pub open spec fn le64(x: u64) -> Seq<u8> {
    seq![
        x as u8,
        (x >> 8u64) as u8,
        (x >> 16u64) as u8,
        (x >> 24u64) as u8,
        (x >> 32u64) as u8,
        (x >> 40u64) as u8,
        (x >> 48u64) as u8,
        (x >> 56u64) as u8,
    ]
}

/// The four little-endian bytes of `x`.
pub open spec fn le32(x: u32) -> Seq<u8> {
    seq![x as u8, (x >> 8u32) as u8, (x >> 16u32) as u8, (x >> 24u32) as u8]
}

/// `mov rax, target; jmp rax`.
pub open spec fn jump_rax_spec(target: u64) -> Seq<u8> {
    seq![0x48u8, 0xb8u8] + le64(target) + seq![0xffu8, 0xe0u8]
}

/// `mov rcx, target; jmp rcx`.
pub open spec fn jump_rcx_spec(target: u64) -> Seq<u8> {
    seq![0x48u8, 0xb9u8] + le64(target) + seq![0xffu8, 0xe1u8]
}

/// Appends the little-endian bytes of `x`.
pub fn push_le64(v: &mut Vec<u8>, x: u64)
    ensures
        final(v)@ == old(v)@ + le64(x),
{
    v.push(x as u8);
    v.push((x >> 8u64) as u8);
    v.push((x >> 16u64) as u8);
    v.push((x >> 24u64) as u8);
    v.push((x >> 32u64) as u8);
    v.push((x >> 40u64) as u8);
    v.push((x >> 48u64) as u8);
    v.push((x >> 56u64) as u8);
    assert(v@ =~= old(v)@ + le64(x));
}

/// Appends the little-endian bytes of `x`.
pub fn push_le32(v: &mut Vec<u8>, x: u32)
    ensures
        final(v)@ == old(v)@ + le32(x),
{
    v.push(x as u8);
    v.push((x >> 8u32) as u8);
    v.push((x >> 16u32) as u8);
    v.push((x >> 24u32) as u8);
    assert(v@ =~= old(v)@ + le32(x));
}

/// Appends all of `bytes`.
pub fn push_all(v: &mut Vec<u8>, bytes: &[u8])
    ensures
        final(v)@ == old(v)@ + bytes@,
{
    let mut i: usize = 0;
    while i < bytes.len()
        invariant
            i <= bytes@.len(),
            v@ == old(v)@ + bytes@.take(i as int),
        decreases bytes.len() - i,
    {
        v.push(bytes[i]);
        assert(bytes@.take(i + 1) =~= bytes@.take(i as int).push(bytes@[i as int]));
        i = i + 1;
    }
    assert(bytes@.take(i as int) =~= bytes@);
}

/// Code that jumps to `target` through `rax`.
pub fn jump_rax(target: u64) -> (r: Vec<u8>)
    ensures
        r@ == jump_rax_spec(target),
{
    let mut v: Vec<u8> = Vec::new();
    v.push(0x48);
    v.push(0xb8);
    push_le64(&mut v, target);
    v.push(0xff);
    v.push(0xe0);
    assert(v@ =~= jump_rax_spec(target));
    v
}

/// Code that jumps to `target` through `rcx`.
pub fn jump_rcx(target: u64) -> (r: Vec<u8>)
    ensures
        r@ == jump_rcx_spec(target),
{
    let mut v: Vec<u8> = Vec::new();
    v.push(0x48);
    v.push(0xb9);
    push_le64(&mut v, target);
    v.push(0xff);
    v.push(0xe1);
    assert(v@ =~= jump_rcx_spec(target));
    v
}

/// The `u64` whose little-endian bytes are the first eight of `s`.
pub open spec fn from_le64(s: Seq<u8>) -> u64 {
    (s[0] as u64) | ((s[1] as u64) << 8u64) | ((s[2] as u64) << 16u64) | ((s[3] as u64) << 24u64)
        | ((s[4] as u64) << 32u64) | ((s[5] as u64) << 40u64) | ((s[6] as u64) << 48u64) | ((
    s[7] as u64) << 56u64)
}

/// Reads a little-endian `u64` from the first eight bytes of `s`.
pub fn read_le64(s: &[u8]) -> (r: u64)
    requires
        s@.len() >= 8,
    ensures
        r == from_le64(s@),
{
    (s[0] as u64) | ((s[1] as u64) << 8u64) | ((s[2] as u64) << 16u64) | ((s[3] as u64) << 24u64)
        | ((s[4] as u64) << 32u64) | ((s[5] as u64) << 40u64) | ((s[6] as u64) << 48u64) | ((
    s[7] as u64) << 56u64)
}

} // verus!
