use price_fetcher::AccountId;

#[test]
fn parse_keeps_the_text_of_a_valid_identifier() {
    let id = AccountId::parse("usdn.testnet").unwrap();
    assert_eq!(id.as_str(), "usdn.testnet");
}

#[test]
fn parse_accepts_what_the_host_accepts() {
    let valid = [
        "aa",
        "a-a",
        "a-aa",
        "100",
        "0o",
        "com",
        "near",
        "bowen",
        "b-o_w_e-n",
        "b.owen",
        "bro.wen",
        "a.ha",
        "a.b-a.ra",
        "system",
        "over.9000",
        "google.com",
        "illia.cheapaccounts.near",
        "0o0ooo00oo00o",
        "alex-skidanov",
        "10-4.8-2",
        "no_lols",
        "near.a",
        "a.a",
        "priceoracle.testnet",
    ];
    for text in valid {
        let id = AccountId::parse(text);
        assert!(id.is_some(), "{:?} was refused", text);
        assert_eq!(id.unwrap().as_str(), text);
    }
}

#[test]
fn parse_refuses_what_the_host_refuses() {
    let invalid = [
        "",
        "a",
        "A",
        "Abc",
        "-near",
        "near-",
        "-near-",
        "near.",
        ".near",
        "near@",
        "@near",
        "неар",
        "@@@@@",
        "0__0",
        "0_-_0",
        "..",
        "a..near",
        "nEar",
        "_bowen",
        "hello world",
        "some-complex-address@gmail.com",
        "sub.buy_d1gitz@atata@b0-rg.c_0_m",
    ];
    for text in invalid {
        assert!(AccountId::parse(text).is_none(), "{:?} was accepted", text);
    }
}

#[test]
fn parse_holds_the_length_between_two_and_sixty_four() {
    let shortest = "ab";
    let longest = "0123456789012345678901234567890123456789012345678901234567890123";
    let too_long = "01234567890123456789012345678901234567890123456789012345678901234";
    assert_eq!(longest.len(), 64);
    assert_eq!(too_long.len(), 65);
    assert!(AccountId::parse(shortest).is_some());
    assert!(AccountId::parse(longest).is_some());
    assert!(AccountId::parse(too_long).is_none());
    assert!(AccountId::parse("a").is_none());
}

#[test]
fn parse_counts_characters_of_more_than_one_byte_as_invalid() {
    assert!(AccountId::parse("né").is_none());
    assert!(AccountId::parse("a\u{1F600}b").is_none());
}

#[test]
fn equal_text_makes_equal_identifiers() {
    let a = AccountId::parse("fetcher.testnet").unwrap();
    let b = AccountId::parse("fetcher.testnet").unwrap();
    let c = AccountId::parse("other.testnet").unwrap();
    assert!(a == b);
    assert!(a != c);
}

#[test]
fn clone_keeps_the_text() {
    let a = AccountId::parse("fetcher.testnet").unwrap();
    let b = a.clone();
    assert_eq!(a, b);
    assert_eq!(b.as_str(), "fetcher.testnet");
}

/// The rule for account identifiers, written out on the characters of `text`.
fn follows_the_rule(text: &str) -> bool {
    let chars: Vec<char> = text.chars().collect();
    let is_separator = |c: char| c == '-' || c == '_' || c == '.';
    let is_alphanumeric = |c: char| ('a' <= c && c <= 'z') || ('0' <= c && c <= '9');
    2 <= chars.len()
        && chars.len() <= 64
        && chars.iter().all(|&c| is_alphanumeric(c) || is_separator(c))
        && !is_separator(chars[0])
        && !is_separator(chars[chars.len() - 1])
        && chars.windows(2).all(|pair| !(is_separator(pair[0]) && is_separator(pair[1])))
}

#[test]
fn parse_follows_the_rule_on_every_short_string() {
    // the ends of the accepted ranges, their neighbours, the separators and a few strangers
    let alphabet = [
        'a', 'z', '0', '9', '-', '_', '.', '`', '{', '/', ':', 'A', 'Z', '@', ' ', '\u{e9}',
    ];
    let mut texts: Vec<String> = vec![String::new()];
    let mut last: Vec<String> = vec![String::new()];
    for _ in 0..4 {
        let mut next: Vec<String> = Vec::new();
        for text in last.iter() {
            for c in alphabet {
                let mut longer = text.clone();
                longer.push(c);
                next.push(longer);
            }
        }
        texts.extend(next.iter().cloned());
        last = next;
    }
    assert_eq!(texts.len(), 1 + 16 + 16 * 16 + 16 * 16 * 16 + 16 * 16 * 16 * 16);
    for text in texts.iter() {
        let parsed = AccountId::parse(text);
        assert_eq!(parsed.is_some(), follows_the_rule(text), "on {:?}", text);
        if let Some(id) = parsed {
            assert_eq!(id.as_str(), text.as_str());
        }
    }
}

#[test]
fn parse_follows_the_rule_at_the_longest_length() {
    for length in 60..70usize {
        let plain = "a".repeat(length);
        assert_eq!(AccountId::parse(&plain).is_some(), length <= 64);
        assert_eq!(AccountId::parse(&plain).is_some(), follows_the_rule(&plain));
        let parted = format!("{}.{}", "b".repeat(length - 2), "c");
        assert_eq!(AccountId::parse(&parted).is_some(), length <= 64);
        assert_eq!(AccountId::parse(&parted).is_some(), follows_the_rule(&parted));
        let ending_in_separator = format!("{}-", "d".repeat(length - 1));
        assert!(AccountId::parse(&ending_in_separator).is_none());
        assert!(!follows_the_rule(&ending_in_separator));
    }
    // 32 characters in 64 bytes, 64 characters in 128 bytes
    for count in [32usize, 64] {
        let wide = "\u{e9}".repeat(count);
        assert!(AccountId::parse(&wide).is_none());
        assert!(!follows_the_rule(&wide));
    }
}
