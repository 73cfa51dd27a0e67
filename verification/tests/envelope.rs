use chrono_kernel_core::envelope::decode_envelope;
use chrono_kernel_core::envelope::encode_envelope;
use chrono_kernel_core::envelope::simple_replace_json_bytes;
use chrono_kernel_core::envelope::wrap_json;

#[test]
fn test_wrap_json_exact_grammar() {
    let mut out: Vec<u8> = vec![0; 64];
    let n = wrap_json("Error", "오류", &mut out).unwrap();
    assert_eq!(n, 26);
    assert_eq!(&out[0..n], "{\"r\":\"Error\",\"t\":\"오류\"}".as_bytes());
    // the rest of the region is untouched
    assert!(out[n..].iter().all(|b| *b == 0));
    assert_eq!(out.len(), 64);
}

#[test]
fn test_wrap_json_overflow_writes_nothing() {
    // output capacity 16 bytes, envelope needs 20: encode fails and no
    // bytes beyond the original content are exposed.
    let mut out: Vec<u8> = vec![7; 16];
    let r = wrap_json("ab", "cde", &mut out);
    assert!(r.is_err());
    assert_eq!(out, vec![7; 16]);
}

#[test]
fn test_wrap_json_exact_fit() {
    // envelope of ("a", "b") is exactly 17 bytes
    let mut out: Vec<u8> = vec![0; 17];
    let n = wrap_json("a", "b", &mut out).unwrap();
    assert_eq!(n, 17);
    assert_eq!(&out[..], b"{\"r\":\"a\",\"t\":\"b\"}");
    let mut small: Vec<u8> = vec![0; 16];
    assert!(wrap_json("a", "b", &mut small).is_err());
}

#[test]
fn test_round_trip() {
    let mut out: Vec<u8> = vec![0; 64];
    let n = wrap_json("Error", "오류", &mut out).unwrap();
    let (o, t) = decode_envelope(&out[0..n]).unwrap();
    assert_eq!(o, b"Error".to_vec());
    assert_eq!(t, "오류".as_bytes().to_vec());
}

#[test]
fn test_round_trip_empty_fields() {
    let mut out: Vec<u8> = vec![0; 32];
    let n = wrap_json("", "", &mut out).unwrap();
    assert_eq!(n, 15);
    let (o, t) = decode_envelope(&out[0..n]).unwrap();
    assert!(o.is_empty());
    assert!(t.is_empty());
}

#[test]
fn test_round_trip_whole_vocabulary() {
    let table = chrono_kernel_core::i18n::i18n_table_ko();
    for e in &table {
        let mut out: Vec<u8> = vec![0; 256];
        let n = wrap_json(e.original, e.translated, &mut out).unwrap();
        let (o, t) = decode_envelope(&out[0..n]).unwrap();
        assert_eq!(o, e.original.as_bytes().to_vec());
        assert_eq!(t, e.translated.as_bytes().to_vec());
    }
}

#[test]
fn test_decode_rejects_malformed() {
    assert!(decode_envelope(b"not an envelope").is_none());
    assert!(decode_envelope(b"{\"r\":\"x\"}").is_none());
    assert!(decode_envelope(b"").is_none());
    assert!(decode_envelope(b"{\"r\":\"a\",\"t\":\"b\"").is_none());
}

#[test]
fn test_encode_envelope_bytes() {
    let mut out: Vec<u8> = vec![0; 64];
    let n = encode_envelope(b"Done", "완료".as_bytes(), &mut out).unwrap();
    assert_eq!(&out[0..n], "{\"r\":\"Done\",\"t\":\"완료\"}".as_bytes());
}

#[test]
fn test_simple_replace_json_bytes_drops_nul_and_adds_newline() {
    let mut out: Vec<u8> = vec![0; 64];
    // the translated bytes arrive NUL-terminated, as the keyword policy
    // hands them over
    let translated = "오류\u{0}".as_bytes();
    let n = simple_replace_json_bytes(b"Error detected", translated, &mut out).unwrap();
    assert_eq!(&out[0..n], "{\"r\":\"Error detected\",\"t\":\"오류\"}\n".as_bytes());
}

#[test]
fn test_simple_replace_json_bytes_overflow() {
    let mut out: Vec<u8> = vec![9; 16];
    let r = simple_replace_json_bytes(b"abcdef", b"x\0", &mut out);
    assert!(r.is_none());
    assert_eq!(out, vec![9; 16]);
}
