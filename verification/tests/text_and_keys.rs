use redisson_rs::config::server_mode::ServerMode;
use redisson_rs::redisson_base_lock::{ensure_hash_tag, join_with_colon};
use redisson_rs::config::equal_jitter_delay::uuid_random_bits;
use redisson_rs::text::{contains_char, decimal_string, parse_hex};

#[test]
fn decimal_string_matches_to_string() {
    for n in [0u64, 7, 9, 10, 42, 100, 1000, 30000, 123456789, u64::MAX] {
        assert_eq!(decimal_string(n), n.to_string());
    }
    assert_eq!(decimal_string(u64::MAX), "18446744073709551615");
}

#[test]
fn contains_char_finds_braces() {
    assert!(contains_char("a{b", '{'));
    assert!(!contains_char("abc", '{'));
    assert!(!contains_char("", '{'));
    assert!(contains_char("日本{", '{'));
}

#[test]
fn ensure_hash_tag_wraps_plain_names() {
    assert_eq!(ensure_hash_tag("lock"), "{lock}");
    assert_eq!(ensure_hash_tag(""), "{}");
    assert_eq!(ensure_hash_tag("a}b"), "{a}b}");
}

#[test]
fn ensure_hash_tag_keeps_tagged_names() {
    assert_eq!(ensure_hash_tag("{user:1}:lock"), "{user:1}:lock");
    assert_eq!(ensure_hash_tag("a{b"), "a{b");
}

#[test]
fn join_with_colon_joins() {
    assert_eq!(join_with_colon("id", "{lock}"), "id:{lock}");
    assert_eq!(join_with_colon("", ""), ":");
}

#[test]
fn server_mode_names() {
    assert_eq!(ServerMode::Standalone.as_str(), "standalone");
    assert_eq!(ServerMode::Cluster.as_str(), "cluster");
    assert_eq!(ServerMode::Sentinel.as_str(), "sentinel");
}

#[test]
fn parse_hex_reads_digits() {
    assert_eq!(parse_hex(""), 0);
    assert_eq!(parse_hex("ff"), 255);
    assert_eq!(parse_hex("0a1"), 161);
    assert_eq!(parse_hex("fffffffffffffff"), (1u64 << 60) - 1);
    assert_eq!(parse_hex("ffffffffffffffff"), u64::MAX);
    assert_eq!(parse_hex("0123456789abcdef"), 0x0123456789abcdef);
}

#[test]
fn uuid_random_bits_reads_the_random_digits() {
    assert_eq!(uuid_random_bits("67e55044-10b1-426f-9247-bb680e5fe0c8"), 0x247bb680e5fe0c8);
    assert_eq!(uuid_random_bits("00000000-0000-4000-8000-000000000000"), 0);
}
