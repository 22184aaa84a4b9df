use sync_edit::pattern::{find_tokens, parse_pattern, parse_token, split_tokens, ModuleMemory, TokenError};

#[test]
fn parse_pattern_tokens_and_wildcards() {
    let tokens = parse_pattern("48 8b ?? 05").unwrap();
    assert_eq!(tokens, vec![Some(0x48), Some(0x8b), None, Some(0x05)]);
}

#[test]
fn parse_pattern_splits_on_any_ascii_whitespace() {
    let tokens = parse_pattern("\t 4C\n\r8b\x0c  ??  ").unwrap();
    assert_eq!(tokens, vec![Some(0x4c), Some(0x8b), None]);
    assert_eq!(parse_pattern("").unwrap(), Vec::<Option<u8>>::new());
    assert_eq!(parse_pattern("   ").unwrap(), Vec::<Option<u8>>::new());
}

#[test]
fn parse_token_follows_from_str_radix() {
    assert_eq!(parse_token(b"ff"), Ok(Some(255)));
    assert_eq!(parse_token(b"0000ff"), Ok(Some(255)));
    assert_eq!(parse_token(b"+f"), Ok(Some(15)));
    assert_eq!(parse_token(b"+"), Err(TokenError::InvalidDigit));
    assert_eq!(parse_token(b"-1"), Err(TokenError::InvalidDigit));
    assert_eq!(parse_token(b"100"), Err(TokenError::PosOverflow));
    assert_eq!(parse_token(b"fffg"), Err(TokenError::PosOverflow));
    assert_eq!(parse_token(b"1g"), Err(TokenError::InvalidDigit));
    assert_eq!(parse_token(b"?"), Err(TokenError::InvalidDigit));
    assert_eq!(parse_token(b"???"), Err(TokenError::InvalidDigit));
    assert_eq!(parse_token(b""), Err(TokenError::Empty));
    // the same results as std's parser
    for t in ["ff", "0000ff", "+f", "+", "-1", "100", "fffg", "1g", "7F", "00"] {
        let std_result = u8::from_str_radix(t, 16).ok();
        assert_eq!(parse_token(t.as_bytes()).ok().flatten(), std_result, "{t}");
    }
}

#[test]
fn parse_pattern_reports_first_invalid_token() {
    assert_eq!(parse_pattern("00 zz 100"), Err(TokenError::InvalidDigit));
    assert_eq!(parse_pattern("00 100 zz"), Err(TokenError::PosOverflow));
}

#[test]
fn split_tokens_drops_empty_runs() {
    let tokens = split_tokens(b"  ab  c d ");
    assert_eq!(tokens, vec![b"ab".to_vec(), b"c".to_vec(), b"d".to_vec()]);
}

#[test]
fn find_pattern_gives_first_match_address() {
    let memory = [0u8, 1, 2, 3, 1, 2, 3, 9, 9, 9];
    let module = ModuleMemory::new(0x1000, &memory);
    assert_eq!(module.find_pattern("01 ?? 03"), Ok(Some(0x1001)));
    assert_eq!(module.find_pattern("02 03 09"), Ok(Some(0x1005)));
    assert_eq!(module.find_pattern("04"), Ok(None));
    assert_eq!(module.find_pattern("zz"), Err(TokenError::InvalidDigit));
}

#[test]
fn find_pattern_searches_up_to_the_last_window() {
    let memory = [7u8, 1, 2, 3];
    let module = ModuleMemory::new(0, &memory);
    // a match that ends at the last byte is found
    assert_eq!(module.find_pattern("01 02 03"), Ok(Some(1)));
    assert_eq!(module.find_pattern("07 01 02 03"), Ok(Some(0)));
    assert_eq!(module.find_pattern("07 01 02 04"), Ok(None));
    assert_eq!(find_tokens(&memory, &vec![Some(2), Some(3)]), Some(2));
    assert_eq!(find_tokens(&memory, &vec![Some(3), Some(3)]), None);
    assert_eq!(find_tokens(&memory, &vec![]), Some(0));
}

#[test]
fn find_pattern_all_wildcards_matches_at_start() {
    let memory = [5u8, 6, 7];
    let module = ModuleMemory::new(10, &memory);
    assert_eq!(module.find_pattern("?? ??"), Ok(Some(10)));
}
