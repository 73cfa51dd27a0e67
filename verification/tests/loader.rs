use chrono_kernel_core::loader::escape_rust_string;
use chrono_kernel_core::loader::MappingEntry;
use chrono_kernel_core::loader::TranslationMap;
use chrono_kernel_core::loader::TranslationTableBuilder;

const EXAMPLE_JSON_KO: &str = r#"{
  "language": "한국어",
  "language_code": "ko_KR",
  "version": "1.0.0",
  "author": "Bureum Lee",
  "description": "Korean translation for Linux kernel messages",
  "mappings": [
    {
      "en": "Ready!",
      "translated": "준비 완료!",
      "category": "status"
    },
    {
      "en": "Error",
      "translated": "오류",
      "category": "error"
    },
    {
      "en": "Permission denied",
      "translated": "권한이 거부되었습니다",
      "context": "Access control error",
      "category": "permission"
    }
  ]
}"#;

fn parse_example(doc: &str) -> TranslationMap {
    let v: serde_json::Value = serde_json::from_str(doc).unwrap();
    let mappings = v["mappings"]
        .as_array()
        .unwrap()
        .iter()
        .map(|m| MappingEntry {
            en: m["en"].as_str().unwrap().to_string(),
            translated: m["translated"].as_str().unwrap().to_string(),
            context: m["context"].as_str().map(|s| s.to_string()),
            category: m["category"].as_str().map(|s| s.to_string()),
        })
        .collect();
    TranslationMap {
        language: v["language"].as_str().unwrap().to_string(),
        language_code: v["language_code"].as_str().unwrap().to_string(),
        version: v["version"].as_str().unwrap().to_string(),
        author: v["author"].as_str().map(|s| s.to_string()),
        description: v["description"].as_str().map(|s| s.to_string()),
        mappings,
    }
}

#[test]
fn test_json_parsing() {
    let map = parse_example(EXAMPLE_JSON_KO);
    assert_eq!(map.language, "한국어");
    assert_eq!(map.language_code, "ko_KR");
    assert!(map.mappings.len() > 0);
}

#[test]
fn test_table_builder() {
    let map = parse_example(EXAMPLE_JSON_KO);
    let mut builder = TranslationTableBuilder::new();
    for entry in map.mappings {
        builder.push_entry(entry.en, entry.translated);
    }
    let hashmap = builder.build_hashmap();
    assert_eq!(hashmap.get("Error"), Some(&"오류".to_string()));
}

#[test]
fn test_load_map_keeps_document_order() {
    let map = parse_example(EXAMPLE_JSON_KO);
    let mut builder = TranslationTableBuilder::new();
    builder.load_map(map);
    assert_eq!(builder.entries.len(), 3);
    assert_eq!(builder.entries[0].0, "Ready!");
    assert_eq!(builder.entries[1].0, "Error");
    assert_eq!(builder.entries[1].1, "오류");
    assert_eq!(builder.entries[2].0, "Permission denied");
}

#[test]
fn test_escape_rust_string() {
    assert_eq!(escape_rust_string("plain"), "plain");
    assert_eq!(escape_rust_string("a\"b"), "a\\\"b");
    assert_eq!(escape_rust_string("a\\b"), "a\\\\b");
    assert_eq!(escape_rust_string("a\nb\rc\td"), "a\\nb\\rc\\td");
    assert_eq!(escape_rust_string(""), "");
}

#[test]
fn test_generate_rust_code_exact() {
    let mut builder = TranslationTableBuilder::new();
    builder.push_entry("Error".to_string(), "오류".to_string());
    let code = builder.generate_rust_code();
    let expected = "// Auto-generated translation table\n// DO NOT EDIT MANUALLY\n\nuse crate::i18n::TranslationEntry;\n\npub const I18N_TABLE_KO: &[TranslationEntry] = &[\n    TranslationEntry::new(\"Error\", \"오류\"),\n];\n";
    assert_eq!(code, expected);
}

#[test]
fn test_generate_rust_code_escapes_quotes() {
    let mut builder = TranslationTableBuilder::new();
    builder.push_entry("say \"hi\"".to_string(), "x\ny".to_string());
    let code = builder.generate_rust_code();
    assert!(code.contains("TranslationEntry::new(\"say \\\"hi\\\"\", \"x\\ny\"),"));
}
