//! Byte patterns such as `"48 8b ?? 05"` and their search in module memory.
//!
//! A pattern is a list of whitespace-separated tokens; each token is either
//! `??` (matches any byte) or a hexadecimal byte value, parsed the way
//! `u8::from_str_radix(token, 16)` parses it.
use vstd::prelude::*;
use vstd::string::StringSliceAdditionalSpecFns;

verus! {

/// Why a pattern token is not a byte value.
#[derive(Debug, Clone, Copy, PartialEq, Eq)]
pub enum TokenError {
    /// The token is empty.
    Empty,
    /// The token holds a character that is not a hexadecimal digit.
    InvalidDigit,
    /// The token's value does not fit in a byte.
    PosOverflow,
}

/// The ASCII whitespace bytes (space, tab, line feed, form feed, carriage return).
pub open spec fn is_ascii_ws(b: u8) -> bool {
    b == 0x20u8 || b == 0x09u8 || b == 0x0au8 || b == 0x0cu8 || b == 0x0du8
}

/// The token collected so far, as a list of zero or one tokens.
pub open spec fn flush(cur: Seq<u8>) -> Seq<Seq<u8>> {
    if cur.len() == 0 {
        seq![]
    } else {
        seq![cur]
    }
}

/// Splits `s` at ASCII whitespace, `cur` being the unfinished token in front of it.
pub open spec fn split_from(s: Seq<u8>, cur: Seq<u8>) -> Seq<Seq<u8>>
    decreases s.len(),
{
    if s.len() == 0 {
        flush(cur)
    } else if is_ascii_ws(s[0]) {
        flush(cur) + split_from(s.drop_first(), seq![])
    } else {
        split_from(s.drop_first(), cur.push(s[0]))
    }
}

/// The maximal runs of non-whitespace bytes of `s`, in order.
pub open spec fn split_ascii_ws(s: Seq<u8>) -> Seq<Seq<u8>> {
    split_from(s, seq![])
}

/// The value of a hexadecimal digit, if `b` is one.
pub open spec fn hex_digit(b: u8) -> Option<u8> {
    if 0x30 <= b <= 0x39 {
        Some((b - 0x30) as u8)
    } else if 0x61 <= b <= 0x66 {
        Some((b - 0x61 + 10) as u8)
    } else if 0x41 <= b <= 0x46 {
        Some((b - 0x41 + 10) as u8)
    } else {
        None
    }
}

/// The hexadecimal digits, as `u8::from_str_radix(_, 16)` reads them: `0`
/// to `9` are worth 0 to 9, `a` to `f` and `A` to `F` are worth 10 to 15, and
/// no other byte is a digit.
pub proof fn lemma_hex_digit_values()
    ensures
        hex_digit(0x30u8) == Some(0u8),
        hex_digit(0x31u8) == Some(1u8),
        hex_digit(0x32u8) == Some(2u8),
        hex_digit(0x33u8) == Some(3u8),
        hex_digit(0x34u8) == Some(4u8),
        hex_digit(0x35u8) == Some(5u8),
        hex_digit(0x36u8) == Some(6u8),
        hex_digit(0x37u8) == Some(7u8),
        hex_digit(0x38u8) == Some(8u8),
        hex_digit(0x39u8) == Some(9u8),
        hex_digit(0x61u8) == Some(10u8),
        hex_digit(0x62u8) == Some(11u8),
        hex_digit(0x63u8) == Some(12u8),
        hex_digit(0x64u8) == Some(13u8),
        hex_digit(0x65u8) == Some(14u8),
        hex_digit(0x66u8) == Some(15u8),
        hex_digit(0x41u8) == Some(10u8),
        hex_digit(0x42u8) == Some(11u8),
        hex_digit(0x43u8) == Some(12u8),
        hex_digit(0x44u8) == Some(13u8),
        hex_digit(0x45u8) == Some(14u8),
        hex_digit(0x46u8) == Some(15u8),
        forall|c: u8|
            #![trigger hex_digit(c)]
            hex_digit(c) is Some <==> (48 <= c < 58 || 97 <= c < 103 || 65 <= c < 71),
        forall|c: u8| #[trigger] hex_digit(c) matches Some(v) ==> v < 16,
{
}

/// Reads the digits `d` from left to right onto the value `acc`, failing at the
/// first non-digit or at the first step whose value exceeds a byte.
pub open spec fn digits_from(d: Seq<u8>, acc: int) -> Result<int, TokenError>
    decreases d.len(),
{
    if d.len() == 0 {
        Ok(acc)
    } else {
        match hex_digit(d[0]) {
            None => Err(TokenError::InvalidDigit),
            Some(x) => if acc * 16 + x > 255 {
                Err(TokenError::PosOverflow)
            } else {
                digits_from(d.drop_first(), acc * 16 + x)
            },
        }
    }
}

/// The meaning of one token: `Ok(None)` for the wildcard `??`, `Ok(Some(v))`
/// for a byte value (an optional leading `+` is accepted), or the error.
pub open spec fn token_value(t: Seq<u8>) -> Result<Option<u8>, TokenError> {
    if t == seq![0x3fu8, 0x3fu8] {
        Ok(None)
    } else if t.len() == 0 {
        Err(TokenError::Empty)
    } else {
        let d = if t[0] == 0x2bu8 { t.drop_first() } else { t };
        if t[0] == 0x2bu8 && d.len() == 0 {
            Err(TokenError::InvalidDigit)
        } else {
            match digits_from(d, 0) {
                Ok(v) => Ok(Some(v as u8)),
                Err(e) => Err(e),
            }
        }
    }
}

/// A token of two hexadecimal digits `x` and `y` is the byte `16 * x + y`
/// (as `u8::from_str_radix` gives it), for every pair of digits: `a0` is
/// `0xa0`, `ff` is `0xff`.
pub proof fn lemma_two_digit_token(x: u8, y: u8)
    requires
        hex_digit(x) is Some,
        hex_digit(y) is Some,
    ensures
        16 * hex_digit(x)->0 + hex_digit(y)->0 <= 255,
        token_value(seq![x, y]) == Ok::<Option<u8>, TokenError>(
            Some((16 * hex_digit(x)->0 + hex_digit(y)->0) as u8),
        ),
{
    lemma_hex_digit_values();
    let t = seq![x, y];
    assert(t != seq![0x3fu8, 0x3fu8]) by {
        assert(t[0] == x);
    }
    assert(t.drop_first() =~= seq![y]);
    assert(seq![y].drop_first() =~= Seq::<u8>::empty());
    let a = hex_digit(x)->0;
    let b = hex_digit(y)->0;
    assert(digits_from(Seq::<u8>::empty(), a * 16 + b) == Ok::<int, TokenError>(a * 16 + b));
    assert(digits_from(seq![y], a as int) == Ok::<int, TokenError>(a * 16 + b));
    assert(digits_from(t, 0) == Ok::<int, TokenError>(a * 16 + b));
}

/// The meaning of a token list: every token's value, or the error of the first
/// token that has none.
pub open spec fn parse_tokens(ts: Seq<Seq<u8>>) -> Result<Seq<Option<u8>>, TokenError>
    decreases ts.len(),
{
    if ts.len() == 0 {
        Ok(seq![])
    } else {
        match token_value(ts[0]) {
            Err(e) => Err(e),
            Ok(v) => match parse_tokens(ts.drop_first()) {
                Ok(rest) => Ok(seq![v] + rest),
                Err(e) => Err(e),
            },
        }
    }
}

/// The meaning of a pattern string given by its bytes.
pub open spec fn pattern_spec(s: Seq<u8>) -> Result<Seq<Option<u8>>, TokenError> {
    parse_tokens(split_ascii_ws(s))
}

/// Whether the tokens match the memory at `offset`: every non-wildcard token
/// equals the byte at its position.
pub open spec fn matches_at(mem: Seq<u8>, tokens: Seq<Option<u8>>, offset: int) -> bool {
    &&& 0 <= offset
    &&& offset + tokens.len() <= mem.len()
    &&& forall|i: int|
        0 <= i < tokens.len() ==> (#[trigger] tokens[i] matches Some(v) ==> mem[offset + i] == v)
}

/// The offsets that the search tries: every one at which the tokens fit in
/// memory, `0 ..= mem.len() - tokens.len()`.
pub open spec fn searched(mem: Seq<u8>, tokens: Seq<Option<u8>>, offset: int) -> bool {
    0 <= offset <= mem.len() - tokens.len()
}

/// The result of the search: the least searched offset at which the tokens match.
pub open spec fn first_match(mem: Seq<u8>, tokens: Seq<Option<u8>>, r: Option<usize>) -> bool {
    match r {
        Some(off) => {
            &&& searched(mem, tokens, off as int)
            &&& matches_at(mem, tokens, off as int)
            &&& forall|j: int| 0 <= j < off ==> !matches_at(mem, tokens, j)
        },
        None => forall|j: int| searched(mem, tokens, j) ==> !matches_at(mem, tokens, j),
    }
}

proof fn lemma_split_step(s: Seq<u8>, i: int, cur: Seq<u8>)
    requires
        0 <= i < s.len(),
    ensures
        split_from(s.skip(i), cur) == if is_ascii_ws(s[i]) {
            flush(cur) + split_from(s.skip(i + 1), seq![])
        } else {
            split_from(s.skip(i + 1), cur.push(s[i]))
        },
{
    assert(s.skip(i).drop_first() =~= s.skip(i + 1));
}

/// Splits the bytes of a pattern at ASCII whitespace, dropping empty tokens.
pub fn split_tokens(s: &[u8]) -> (r: Vec<Vec<u8>>)
    ensures
        r@.map_values(|t: Vec<u8>| t@) == split_ascii_ws(s@),
{
    let mut out: Vec<Vec<u8>> = Vec::new();
    let mut cur: Vec<u8> = Vec::new();
    let mut i: usize = 0;
    assert(s@.skip(0) =~= s@);
    while i < s.len()
        invariant
            i <= s.len(),
            out@.map_values(|t: Vec<u8>| t@) + split_from(s@.skip(i as int), cur@) == split_ascii_ws(
                s@,
            ),
        decreases s.len() - i,
    {
        let b = s[i];
        proof {
            lemma_split_step(s@, i as int, cur@);
        }
        if b == 0x20u8 || b == 0x09u8 || b == 0x0au8 || b == 0x0cu8 || b == 0x0du8 {
            if cur.len() > 0 {
                let ghost old_out = out@;
                let tok = cur;
                out.push(tok);
                cur = Vec::new();
                proof {
                    assert(out@.map_values(|t: Vec<u8>| t@) =~= old_out.map_values(
                        |t: Vec<u8>| t@,
                    ) + flush(tok@));
                }
            } else {
                assert(flush(cur@) =~= Seq::<Seq<u8>>::empty());
                assert(cur@ =~= Seq::<u8>::empty());
            }
            assert(out@.map_values(|t: Vec<u8>| t@) + split_from(s@.skip(i + 1), cur@)
                =~= split_ascii_ws(s@));
        } else {
            cur.push(b);
        }
        i = i + 1;
    }
    assert(s@.skip(i as int) =~= Seq::<u8>::empty());
    if cur.len() > 0 {
        let ghost old_out = out@;
        let tok = cur;
        out.push(tok);
        assert(out@.map_values(|t: Vec<u8>| t@) =~= old_out.map_values(|t: Vec<u8>| t@) + flush(
            tok@,
        ));
    } else {
        assert(flush(cur@) =~= Seq::<Seq<u8>>::empty());
        assert(out@.map_values(|t: Vec<u8>| t@) + flush(cur@) =~= out@.map_values(
            |t: Vec<u8>| t@,
        ));
    }
    out
}

fn hex_digit_value(b: u8) -> (r: Option<u8>)
    ensures
        r == hex_digit(b),
{
    if 0x30 <= b && b <= 0x39 {
        Some(b - 0x30)
    } else if 0x61 <= b && b <= 0x66 {
        Some(b - 0x61 + 10)
    } else if 0x41 <= b && b <= 0x46 {
        Some(b - 0x41 + 10)
    } else {
        None
    }
}

/// Parses one token: `??` is a wildcard, anything else a hexadecimal byte.
pub fn parse_token(t: &[u8]) -> (r: Result<Option<u8>, TokenError>)
    ensures
        r == token_value(t@),
{
    if t.len() == 2 && t[0] == 0x3fu8 && t[1] == 0x3fu8 {
        assert(t@ =~= seq![0x3fu8, 0x3fu8]);
        return Ok(None);
    }
    assert(t@ != seq![0x3fu8, 0x3fu8]);
    if t.len() == 0 {
        return Err(TokenError::Empty);
    }
    let start: usize = if t[0] == 0x2bu8 {
        1
    } else {
        0
    };
    if start == 1 && t.len() == 1 {
        return Err(TokenError::InvalidDigit);
    }
    let ghost d = if t@[0] == 0x2bu8 {
        t@.drop_first()
    } else {
        t@
    };
    assert(d =~= t@.skip(start as int));
    let mut acc: u32 = 0;
    let mut i: usize = start;
    while i < t.len()
        invariant
            start <= i <= t.len(),
            acc <= 255,
            digits_from(d, 0) == digits_from(t@.skip(i as int), acc as int),
            token_value(t@) == match digits_from(d, 0) {
                Ok(v) => Ok(Some(v as u8)),
                Err(e) => Err::<Option<u8>, TokenError>(e),
            },
        decreases t.len() - i,
    {
        assert(t@.skip(i as int).drop_first() =~= t@.skip(i + 1));
        match hex_digit_value(t[i]) {
            None => {
                return Err(TokenError::InvalidDigit);
            },
            Some(x) => {
                if acc * 16 + (x as u32) > 255 {
                    return Err(TokenError::PosOverflow);
                }
                acc = acc * 16 + (x as u32);
            },
        }
        i = i + 1;
    }
    assert(t@.skip(i as int) =~= Seq::<u8>::empty());
    Ok(Some(acc as u8))
}

/// Parses a list of tokens, stopping at the first one that is not valid.
pub fn parse_token_list(ts: &Vec<Vec<u8>>) -> (r: Result<Vec<Option<u8>>, TokenError>)
    ensures
        match (r, parse_tokens(ts@.map_values(|t: Vec<u8>| t@))) {
            (Ok(v), Ok(s)) => v@ == s,
            (Err(e), Err(f)) => e == f,
            _ => false,
        },
{
    let ghost all = ts@.map_values(|t: Vec<u8>| t@);
    let mut out: Vec<Option<u8>> = Vec::new();
    let mut i: usize = 0;
    assert(all.skip(0) =~= all);
    while i < ts.len()
        invariant
            i <= ts.len(),
            all == ts@.map_values(|t: Vec<u8>| t@),
            parse_tokens(all) == match parse_tokens(all.skip(i as int)) {
                Ok(rest) => Ok(out@ + rest),
                Err(e) => Err::<Seq<Option<u8>>, TokenError>(e),
            },
        decreases ts.len() - i,
    {
        assert(all.skip(i as int).drop_first() =~= all.skip(i + 1));
        assert(all.skip(i as int)[0] == ts@[i as int]@);
        match parse_token(ts[i].as_slice()) {
            Err(e) => {
                return Err(e);
            },
            Ok(v) => {
                let ghost old_out = out@;
                out.push(v);
                proof {
                    match parse_tokens(all.skip(i + 1)) {
                        Ok(rest) => {
                            assert(old_out + (seq![v] + rest) =~= out@ + rest);
                        },
                        Err(_) => {},
                    }
                }
            },
        }
        i = i + 1;
    }
    assert(all.skip(i as int) =~= Seq::<Seq<u8>>::empty());
    assert(out@ + Seq::<Option<u8>>::empty() =~= out@);
    Ok(out)
}

/// Parses a pattern string into its tokens.
pub fn parse_pattern(pattern: &str) -> (r: Result<Vec<Option<u8>>, TokenError>)
    ensures
        match (r, pattern_spec(pattern.spec_bytes())) {
            (Ok(v), Ok(s)) => v@ == s,
            (Err(e), Err(f)) => e == f,
            _ => false,
        },
{
    let ts = split_tokens(pattern.as_bytes());
    parse_token_list(&ts)
}

fn matches_here(mem: &[u8], tokens: &Vec<Option<u8>>, offset: usize) -> (r: bool)
    requires
        offset + tokens@.len() <= mem@.len(),
    ensures
        r == matches_at(mem@, tokens@, offset as int),
{
    let mlen = mem.len();
    let mut i: usize = 0;
    while i < tokens.len()
        invariant
            i <= tokens@.len(),
            mlen == mem@.len(),
            offset + tokens@.len() <= mem@.len(),
            forall|k: int|
                0 <= k < i ==> (#[trigger] tokens@[k] matches Some(v) ==> mem@[offset + k] == v),
        decreases tokens.len() - i,
    {
        match tokens[i] {
            Some(v) => {
                if mem[offset + i] != v {
                    assert(!(tokens@[i as int] matches Some(w) ==> mem@[offset + i] == w));
                    return false;
                }
            },
            None => {},
        }
        i = i + 1;
    }
    true
}

/// Finds the first searched offset at which `tokens` match `mem`.
pub fn find_tokens(mem: &[u8], tokens: &Vec<Option<u8>>) -> (r: Option<usize>)
    requires
        tokens@.len() <= mem@.len(),
    ensures
        first_match(mem@, tokens@, r),
{
    let end = mem.len() - tokens.len();
    let mut offset: usize = 0;
    loop
        invariant
            end == mem@.len() - tokens@.len(),
            offset <= end,
            forall|j: int| 0 <= j < offset ==> !matches_at(mem@, tokens@, j),
        decreases end - offset,
    {
        if matches_here(mem, tokens, offset) {
            return Some(offset);
        }
        if offset == end {
            return None;
        }
        offset = offset + 1;
    }
}

/// Memory of a process module: its bytes and the address of the first one.
pub struct ModuleMemory<'a> {
    pub base: usize,
    pub slice: &'a [u8],
}

impl<'a> ModuleMemory<'a> {
    /// The module's addresses do not wrap around.
    pub open spec fn wf(&self) -> bool {
        self.base + self.slice@.len() <= usize::MAX
    }

    /// Views module memory that starts at address `base`.
    pub fn new(base: usize, slice: &'a [u8]) -> (r: Self)
        requires
            base + slice@.len() <= usize::MAX,
        ensures
            r.base == base,
            r.slice@ == slice@,
            r.wf(),
    {
        ModuleMemory { base, slice }
    }

    /// Try to find a specific byte pattern in this module's memory.
    ///
    /// On success, the address of the first match (module base plus offset)
    /// is returned; `None` when the pattern occurs at no searched offset; the
    /// error of the first invalid token when the pattern does not parse.
    pub fn find_pattern(&self, pattern: &str) -> (r: Result<Option<usize>, TokenError>)
        requires
            self.wf(),
            pattern_spec(pattern.spec_bytes()) matches Ok(t) ==> t.len() <= self.slice@.len(),
        ensures
            match (r, pattern_spec(pattern.spec_bytes())) {
                (Err(e), Err(f)) => e == f,
                (Ok(found), Ok(tokens)) => match found {
                    Some(addr) => addr >= self.base && first_match(
                        self.slice@,
                        tokens,
                        Some((addr - self.base) as usize),
                    ),
                    None => first_match(self.slice@, tokens, None),
                },
                _ => false,
            },
    {
        let tokens = parse_pattern(pattern)?;
        match find_tokens(self.slice, &tokens) {
            Some(off) => {
                assert((self.base + off - self.base) as usize == off);
                Ok(Some(self.base + off))
            },
            None => {
                assert(first_match(self.slice@, tokens@, None));
                Ok(None)
            },
        }
    }
}

} // verus!
