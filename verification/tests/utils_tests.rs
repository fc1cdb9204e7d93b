use janus::error::JanusError;
use janus::text::{count_lines, is_blank, join_with};
use janus::utils::{next_id_search_step, IdSearchStep};
use janus::utils::{
    editor_command, generate_id_with_custom_prefix, generate_unique_id_with_prefix,
    generate_uuid, iso_date, stdin_text, truncate_string, user_name_from_output,
    validate_prefix,
};

fn no_file_exists(_name: &str) -> bool {
    false
}

#[test]
fn test_generate_unique_id_with_prefix_format() {
    let id = generate_unique_id_with_prefix("task", no_file_exists).unwrap();
    assert!(id.starts_with("task-"));
    assert!(id.contains('-'));
    let parts: Vec<&str> = id.rsplitn(2, '-').collect();
    assert_eq!(parts[0].len(), 4);
}

#[test]
fn test_truncate_string_short() {
    assert_eq!(truncate_string("Hello", 10), "Hello");
}

#[test]
fn test_truncate_string_exact() {
    assert_eq!(truncate_string("Hello", 5), "Hello");
}

#[test]
fn test_truncate_string_long() {
    assert_eq!(truncate_string("Hello World", 8), "Hello...");
}

#[test]
fn test_truncate_string_very_short_max() {
    assert_eq!(truncate_string("Hello World", 3), "Hel");
}

#[test]
fn test_truncate_string_multibyte() {
    let japanese = "こんにちは世界";
    let truncated = truncate_string(japanese, 5);
    assert_eq!(truncated, "こん...");
}

#[test]
fn test_truncate_string_emoji() {
    let emoji = "Test 🎉🎊🎈 emoji";
    let truncated = truncate_string(emoji, 10);
    assert_eq!(truncated, "Test 🎉🎊...");
}

#[test]
fn test_generate_id_with_custom_prefix() {
    let id = generate_id_with_custom_prefix(Some("perf"), no_file_exists).unwrap();
    assert!(id.starts_with("perf-"));
    let parts: Vec<&str> = id.rsplitn(2, '-').collect();
    assert_eq!(parts[0].len(), 4);
}

#[test]
fn test_generate_id_without_custom_prefix() {
    let id = generate_id_with_custom_prefix(None, no_file_exists).unwrap();
    assert!(id.starts_with("task-"));
    assert!(id.contains('-'));
    let parts: Vec<&str> = id.rsplitn(2, '-').collect();
    assert_eq!(parts[0].len(), 4);
}

#[test]
fn test_generate_id_with_empty_prefix_uses_default() {
    let id = generate_id_with_custom_prefix(Some(""), no_file_exists).unwrap();
    assert!(id.starts_with("task-"));
    assert!(id.contains('-'));
    let parts: Vec<&str> = id.rsplitn(2, '-').collect();
    assert_eq!(parts[0].len(), 4);
}

#[test]
fn test_generate_id_with_hyphen_prefix() {
    let id = generate_id_with_custom_prefix(Some("my-prefix"), no_file_exists).unwrap();
    assert!(id.starts_with("my-prefix-"));
}

#[test]
fn test_generate_id_with_underscore_prefix() {
    let id = generate_id_with_custom_prefix(Some("my_prefix"), no_file_exists).unwrap();
    assert!(id.starts_with("my_prefix-"));
}

#[test]
fn test_generate_id_with_numeric_prefix() {
    let id = generate_id_with_custom_prefix(Some("abc123"), no_file_exists).unwrap();
    assert!(id.starts_with("abc123-"));
}

#[test]
fn test_reserved_prefix_rejected() {
    let result = generate_id_with_custom_prefix(Some("plan"), no_file_exists);
    assert!(result.is_err());
    let err = result.unwrap_err();
    assert!(err.to_string().contains("reserved"));
}

#[test]
fn test_invalid_prefix_characters_rejected() {
    let invalid_prefixes = vec!["invalid/prefix", "invalid@prefix", "invalid prefix", "invalid.prefix"];
    for prefix in invalid_prefixes {
        let result = generate_id_with_custom_prefix(Some(prefix), no_file_exists);
        assert!(result.is_err(), "Prefix '{}' should be rejected", prefix);
        let err = result.unwrap_err();
        assert!(
            err.to_string().contains("invalid characters"),
            "Error for '{}' should mention invalid characters",
            prefix
        );
    }
}

#[test]
fn generated_hash_is_lower_hex() {
    let id = generate_unique_id_with_prefix("x", no_file_exists).unwrap();
    let hash = &id[2..];
    assert_eq!(hash.len(), 4);
    assert!(hash.chars().all(|c| c.is_ascii_hexdigit() && !c.is_ascii_uppercase()));
}

#[test]
fn taken_ids_are_skipped_until_exhausted() {
    let all_taken = |_: &str| true;
    assert!(generate_unique_id_with_prefix("task", all_taken).is_none());
    assert!(generate_id_with_custom_prefix(Some("task"), all_taken).is_err());
}

#[test]
fn prefix_validation_accepts_plain_names() {
    assert!(validate_prefix("abc-1_x").is_ok());
    assert!(validate_prefix("plan").is_err());
}

#[test]
fn test_iso_date_format() {
    let date = iso_date();
    assert!(date.contains('T'));
    assert!(date.ends_with('Z'));
}

#[test]
fn test_generate_uuid_format() {
    let uuid = generate_uuid();
    let uuid_parts: Vec<&str> = uuid.split('-').collect();
    assert_eq!(uuid_parts.len(), 5);
    assert_eq!(uuid_parts[0].len(), 8);
    assert_eq!(uuid_parts[1].len(), 4);
    assert_eq!(uuid_parts[2].len(), 4);
    assert_eq!(uuid_parts[3].len(), 4);
    assert_eq!(uuid_parts[4].len(), 12);
}

#[test]
fn test_generate_uuid_unique() {
    let uuid1 = generate_uuid();
    let uuid2 = generate_uuid();
    assert_ne!(uuid1, uuid2);
}

#[test]
fn test_generate_uuid_version_nibble() {
    let uuid = generate_uuid();
    assert_eq!(uuid.chars().nth(14), Some('4'));
    assert!(uuid.chars().all(|c| c == '-' || c.is_ascii_hexdigit() && !c.is_ascii_uppercase()));
}

#[test]
fn test_user_name_from_output_trims() {
    assert_eq!(
        user_name_from_output(true, Some("  Ada Lovelace\n".to_string())),
        Some("Ada Lovelace".to_string())
    );
}

#[test]
fn test_user_name_from_output_failure_or_blank() {
    assert_eq!(user_name_from_output(false, Some("Ada".to_string())), None);
    assert_eq!(user_name_from_output(true, Some("  \n".to_string())), None);
    assert_eq!(user_name_from_output(true, None), None);
}

#[test]
fn test_stdin_text_joins_and_trims() {
    let lines = vec!["  first".to_string(), "second  ".to_string(), "".to_string()];
    assert_eq!(stdin_text(&lines), "first\nsecond");
}

#[test]
fn test_editor_command_default_and_custom() {
    assert_eq!(editor_command(None), "vi \"$1\"");
    assert_eq!(editor_command(Some("nano")), "nano \"$1\"");
}

#[test]
fn test_count_lines_counts_last_unterminated_line() {
    assert_eq!(count_lines(""), 0);
    assert_eq!(count_lines("a"), 1);
    assert_eq!(count_lines("a\nb\n"), 2);
    assert_eq!(count_lines("a\nb"), 2);
}

#[test]
fn test_join_with_separator() {
    let parts = vec!["a".to_string(), "b".to_string(), "c".to_string()];
    assert_eq!(join_with(&parts, ", "), "a, b, c");
    assert_eq!(join_with(&Vec::new(), ", "), "");
}

#[test]
fn test_generate_hash_lengths_and_digits() {
    for n in [0usize, 4, 8, 64] {
        let h = janus::utils::generate_hash(n);
        assert_eq!(h.len(), n);
        assert!(h.chars().all(|c| c.is_ascii_digit() || ('a'..='f').contains(&c)));
    }
    assert_ne!(janus::utils::generate_hash(64), janus::utils::generate_hash(64));
}

#[test]
fn id_search_steps() {
    assert_eq!(next_id_search_step(4, 0, false), IdSearchStep::Found);
    assert_eq!(next_id_search_step(4, 0, true), IdSearchStep::Next { length: 4, attempt: 1 });
    assert_eq!(next_id_search_step(4, 39, true), IdSearchStep::Next { length: 5, attempt: 0 });
    assert_eq!(next_id_search_step(8, 38, true), IdSearchStep::Next { length: 8, attempt: 39 });
    assert_eq!(next_id_search_step(8, 39, true), IdSearchStep::GiveUp);
}

#[test]
fn short_candidates_taken_give_a_longer_hash() {
    let short_taken = |name: &str| name.len() == "task-xxxx.md".len();
    let id = generate_unique_id_with_prefix("task", short_taken).unwrap();
    assert_eq!(id.len(), "task-xxxxx".len());
    let long_taken = |name: &str| name.len() > "task-xxxx.md".len();
    let id = generate_unique_id_with_prefix("task", long_taken).unwrap();
    assert_eq!(id.len(), "task-xxxx".len());
}

#[test]
fn exhaustion_tries_every_candidate() {
    let count = std::cell::Cell::new(0usize);
    let all_taken = |_: &str| {
        count.set(count.get() + 1);
        true
    };
    assert!(generate_unique_id_with_prefix("task", all_taken).is_none());
    assert_eq!(count.get(), 200);
    match generate_id_with_custom_prefix(None, |_: &str| true) {
        Err(JanusError::Other(m)) => assert_eq!(
            m,
            "Failed to generate unique ID after trying hash lengths 4-8 with 40 retries each"
        ),
        other => panic!("unexpected {other:?}"),
    }
}

#[test]
fn blank_follows_unicode_white_space() {
    assert!(is_blank(" \t\n\u{85}\u{a0}\u{1680}\u{2000}\u{200a}\u{2028}\u{2029}\u{202f}\u{205f}\u{3000}"));
    assert!(!is_blank("\u{200b}"));
    assert!(!is_blank("\u{180e}"));
    assert!(!is_blank(" x "));
    for c in ['\u{9}', '\u{d}', ' ', '\u{3000}', '\u{200b}', 'a', '\u{feff}'] {
        assert_eq!(is_blank(&c.to_string()), c.is_whitespace());
    }
}

#[test]
fn iso_date_has_padded_fields() {
    let d = iso_date();
    let b = d.as_bytes();
    let y = b.len() - 16;
    assert!(y == 4 || (y == 5 && b[0] == b'-'));
    let tail = &d[y..];
    let shape = "-00-00T00:00:00Z";
    for (c, s) in tail.chars().zip(shape.chars()) {
        if s == '0' {
            assert!(c.is_ascii_digit(), "{d}");
        } else {
            assert_eq!(c, s, "{d}");
        }
    }
}
