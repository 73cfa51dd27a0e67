use chrono_kernel_core::i18n::i18n_table_ko;
use chrono_kernel_core::i18n::should_translate_str;
use chrono_kernel_core::i18n::translate;
use chrono_kernel_core::i18n::translate_bytes;
use chrono_kernel_core::i18n::TranslationEntry;
use chrono_kernel_core::translation::TranslationTable;

#[test]
fn test_basic_translation() {
    let table = i18n_table_ko();
    assert_eq!(translate(&table, "Error"), Some("오류"));
    assert_eq!(translate(&table, "Permission denied"), Some("권한이 거부되었습니다"));
    assert_eq!(translate(&table, "unknown"), None);
}

#[test]
fn test_translation_with_newline() {
    let table = i18n_table_ko();
    assert_eq!(translate(&table, "Error\n"), Some("오류"));
    assert_eq!(translate(&table, "Permission denied\r\n"), Some("권한이 거부되었습니다"));
    assert_eq!(translate(&table, "Ready!\0"), Some("준비 완료!"));
}

#[test]
fn test_case_insensitive() {
    let table = i18n_table_ko();
    assert_eq!(translate(&table, "error"), Some("오류"));
    assert_eq!(translate(&table, "ERROR"), Some("오류"));
    assert_eq!(translate(&table, "ErRoR"), Some("오류"));
}

#[test]
fn test_should_translate() {
    let table = i18n_table_ko();
    assert!(should_translate_str(&table, "Error"));
    assert!(should_translate_str(&table, "Permission denied"));
    assert!(should_translate_str(&table, "error\n"));
    assert!(!should_translate_str(&table, "12345"));
    assert!(!should_translate_str(&table, ""));
}

#[test]
fn test_translate_bytes() {
    let table = i18n_table_ko();
    let input = b"Error";
    let result = translate_bytes(&table, input);
    assert_eq!(result, Some("오류"));

    let with_newline = b"Error\n";
    let result = translate_bytes(&table, with_newline);
    assert_eq!(result, Some("오류"));

    let invalid = &[0xFF, 0xFE];
    let result = translate_bytes(&table, invalid);
    assert_eq!(result, None);
}

#[test]
fn test_lookup_table_matches_priority_order() {
    // "Error" stands before "error" in the table; the exact-case entry
    // wins, but both resolve to the same translation.
    let table = TranslationTable::new(i18n_table_ko());
    assert_eq!(table.lookup("Error\n"), Some("오류"));
    assert_eq!(table.lookup("ERROR"), Some("오류"));
    assert_eq!(table.lookup("error"), Some("오류"));
    assert_eq!(table.lookup("unknown"), None);
}

#[test]
fn test_entry_caches_byte_lengths() {
    let e = TranslationEntry::new("Error", "오류");
    assert_eq!(e.len_original, 5);
    assert_eq!(e.len_translated, 6);
    assert_eq!(e.original, "Error");
    assert_eq!(e.translated, "오류");
}

#[test]
fn test_should_translate_prefix_markers() {
    let empty: Vec<TranslationEntry> = Vec::new();
    // Marker prefixes make a candidate worth translating even when no
    // table entry matches it.
    assert!(should_translate_str(&empty, "Cannot open device"));
    assert!(should_translate_str(&empty, "no such process"));
    assert!(should_translate_str(&empty, "WARNING: disk full"));
    assert!(!should_translate_str(&empty, "all good here"));
}

#[test]
fn test_should_translate_length_bounds() {
    let table = i18n_table_ko();
    let long = "E".repeat(257);
    assert!(!should_translate_str(&table, &long));
    assert!(!should_translate_str(&table, "\n\n\n"));
}
