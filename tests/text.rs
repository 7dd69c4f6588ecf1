use refraction::decimal::{parse_id, to_decimal};
use refraction::links::{extract_links, Link};

fn link(s: &str, c: &str, m: &str) -> Link {
    Link { server: s.to_string(), channel: c.to_string(), message: m.to_string() }
}

#[test]
fn decimal_text_of_ids() {
    assert_eq!(to_decimal(0), "0");
    assert_eq!(to_decimal(7), "7");
    assert_eq!(to_decimal(100), "100");
    assert_eq!(to_decimal(1234567890), "1234567890");
    assert_eq!(to_decimal(u64::MAX), "18446744073709551615");
}

#[test]
fn parse_id_reads_nonzero_ids() {
    assert_eq!(parse_id("200"), Some(200));
    assert_eq!(parse_id("007"), Some(7));
    assert_eq!(parse_id("18446744073709551615"), Some(u64::MAX));
}

#[test]
fn parse_id_rejects_bad_ids() {
    assert_eq!(parse_id(""), None);
    assert_eq!(parse_id("0"), None);
    assert_eq!(parse_id("000"), None);
    assert_eq!(parse_id("18446744073709551616"), None);
    assert_eq!(parse_id("99999999999999999999999"), None);
    assert_eq!(parse_id("12a"), None);
    assert_eq!(parse_id("+5"), None);
}

#[test]
fn finds_a_plain_link() {
    let r = extract_links("look at https://discord.com/channels/100/200/300");
    assert_eq!(r, vec![link("100", "200", "300")]);
}

#[test]
fn no_links_in_plain_text() {
    assert!(extract_links("").is_empty());
    assert!(extract_links("hello there, nothing to see").is_empty());
    assert!(extract_links("discord.com/channels/1/2").is_empty());
    assert!(extract_links("discord.com/channels//2/3").is_empty());
    assert!(extract_links("discord.org/channels/1/2/3").is_empty());
    assert!(extract_links("discord.com/CHANNELS/1/2/3").is_empty());
}

#[test]
fn finds_links_with_prefixes_and_domains() {
    let r = extract_links("a canary.discord.com/channels/1/2/3 b ptb.discordapp.com/channels/4/5/6 c http://discord.com/channels/7/8/9");
    assert_eq!(r, vec![link("1", "2", "3"), link("4", "5", "6"), link("7", "8", "9")]);
}

#[test]
fn domain_is_matched_without_case() {
    let r = extract_links("https://DisCord.COM/channels/1/2/3 and DISCORDAPP.com/channels/4/5/6");
    assert_eq!(r, vec![link("1", "2", "3"), link("4", "5", "6")]);
}

#[test]
fn repeated_links_are_kept_in_order() {
    let r = extract_links("discord.com/channels/1/2/3 discord.com/channels/1/2/3discord.com/channels/4/5/66x");
    assert_eq!(r, vec![link("1", "2", "3"), link("1", "2", "3"), link("4", "5", "66")]);
}

#[test]
fn links_among_other_characters() {
    let r = extract_links("é→ <https://discord.com/channels/11/22/33> ✓");
    assert_eq!(r, vec![link("11", "22", "33")]);
}

#[test]
fn decimal_text_reads_back() {
    for n in [1u64, 9, 10, 100, 4096, 1234567890123, u64::MAX] {
        assert_eq!(parse_id(&to_decimal(n)), Some(n));
    }
}
