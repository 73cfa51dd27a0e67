use chrono_kernel_core::filter::eligible_bytes;
use chrono_kernel_core::filter::scan_error_keyword;
use chrono_kernel_core::filter::scan_warning_keyword;
use chrono_kernel_core::filter::should_translate_text;
use chrono_kernel_core::monitor::check_address;
use chrono_kernel_core::monitor::record_telemetry;
use chrono_kernel_core::monitor::set_danger_zones;
use chrono_kernel_core::monitor::AddressCheck;
use chrono_kernel_core::monitor::DangerZones;
use chrono_kernel_core::monitor::Telemetry;
use chrono_kernel_core::text::trim_end;
use chrono_kernel_core::text::validate_utf8;
use chrono_kernel_core::text::u64_to_dec;

fn zones() -> DangerZones {
    let mut z = DangerZones::new();
    set_danger_zones(&mut z, 0x1000, 0x2000, 0x3000, 0x4000);
    z
}

#[test]
fn test_danger_zones_verdicts() {
    let z = zones();
    assert_eq!(check_address(&z, 0), AddressCheck::NullPointer);
    assert_eq!(check_address(&z, 0x1000), AddressCheck::KernelCode);
    assert_eq!(check_address(&z, 0x1500), AddressCheck::KernelCode);
    assert_eq!(check_address(&z, 0x2000), AddressCheck::KernelCode);
    assert_eq!(check_address(&z, 0x3500), AddressCheck::KernelData);
    assert_eq!(check_address(&z, 0xffff_8000_0000_0000), AddressCheck::KernelSpace);
    assert_eq!(check_address(&z, 0xffff_ffff_ffff_ffff), AddressCheck::KernelSpace);
    assert_eq!(check_address(&z, 0x5000), AddressCheck::Accepted);
    assert_eq!(check_address(&z, 0x0fff), AddressCheck::Accepted);
}

#[test]
fn test_unconfigured_zones_reject_nothing_in_range() {
    // a range whose start is zero is not configured
    let z = DangerZones::new();
    assert_eq!(check_address(&z, 0x1500), AddressCheck::Accepted);
    assert_eq!(check_address(&z, 0), AddressCheck::NullPointer);
}

#[test]
fn test_eligibility_rules() {
    // trimmed length below two
    assert!(!should_translate_text("E"));
    assert!(!should_translate_text(""));
    // first byte not an ASCII uppercase letter
    assert!(!should_translate_text("error"));
    assert!(!should_translate_text("12345"));
    // the envelope's own signature: the anti-loop guarantee
    assert!(!should_translate_text("{\"r\":\"Error\",\"t\":\"오류\"}"));
    // an ordinary candidate
    assert!(should_translate_text("Error"));
    assert!(eligible_bytes(b"OK"));
    assert!(!eligible_bytes(b"{\"r\":anything"));
}

#[test]
fn test_keyword_policy_markers() {
    assert!(scan_error_keyword(b"kernel: Error in module"));
    assert!(scan_error_keyword(b"RROR fragment"));
    assert!(scan_error_keyword(b"xxRrorxx"));
    assert!(!scan_error_keyword(b"all fine"));
    assert!(scan_warning_keyword(b"Warning: low disk"));
    assert!(scan_warning_keyword(b"wARNIng"));
    assert!(!scan_warning_keyword(b"nothing here"));
}

#[test]
fn test_telemetry_buckets_and_classes() {
    let mut t = Telemetry::new();
    record_telemetry(&mut t, b"Error\n");
    assert_eq!(t.size_tiny, 1);
    assert_eq!(t.has_error, 1);
    record_telemetry(&mut t, "Warning: something long enough to leave tiny".as_bytes());
    assert_eq!(t.size_small, 1);
    assert_eq!(t.has_warning, 1);
    record_telemetry(&mut t, b"{\"k\":1}");
    assert_eq!(t.has_json, 1);
    record_telemetry(&mut t, b"plain");
    assert_eq!(t.has_unknown, 1);
    assert_eq!(t.size_tiny, 3);
}

#[test]
fn test_telemetry_buckets_use_trimmed_length() {
    let mut t = Telemetry::new();
    // 14 content bytes and a pile of trailing whitespace: still tiny
    let mut data = b"noise noise no".to_vec();
    data.extend(std::iter::repeat(b'\n').take(30));
    record_telemetry(&mut t, &data);
    assert_eq!(t.size_tiny, 1);
    assert_eq!(t.size_small, 0);
}

#[test]
fn test_trim_end_bytes() {
    assert_eq!(trim_end(b"Error\n"), b"Error");
    assert_eq!(trim_end(b"Error\r\n"), b"Error");
    assert_eq!(trim_end(b"Ready!\0"), b"Ready!");
    assert_eq!(trim_end(b"Error \t\n"), b"Error");
    assert_eq!(trim_end(b"\n\n"), b"");
    assert_eq!(trim_end(b""), b"");
    assert_eq!(trim_end(b"a b"), b"a b");
}

#[test]
fn test_validate_utf8_agrees_with_std() {
    let cases: Vec<Vec<u8>> = vec![
        b"".to_vec(),
        b"Error\n".to_vec(),
        "오류".as_bytes().to_vec(),
        "año π 😀".as_bytes().to_vec(),
        vec![0xFF, 0xFE],
        vec![0xC0, 0x80],             // overlong NUL
        vec![0xC1, 0xBF],             // overlong
        vec![0xE0, 0x80, 0x80],       // overlong
        vec![0xED, 0xA0, 0x80],       // surrogate U+D800
        vec![0xED, 0x9F, 0xBF],       // U+D7FF, just below the surrogates
        vec![0xEE, 0x80, 0x80],       // U+E000, just above the surrogates
        vec![0xF0, 0x8F, 0xBF, 0xBF], // overlong
        vec![0xF4, 0x8F, 0xBF, 0xBF], // U+10FFFF, the top scalar
        vec![0xF4, 0x90, 0x80, 0x80], // beyond U+10FFFF
        vec![0xF8, 0x80, 0x80, 0x80], // five-byte leading pattern
        vec![0xE1, 0x80],             // truncated
        vec![0xC2],                   // truncated
        vec![0x80],                   // bare continuation
        vec![0x41, 0xC3, 0xA9, 0x42], // mixed ASCII and two-byte
        vec![0xC3, 0x28],             // continuation missing
    ];
    for case in cases {
        assert_eq!(
            validate_utf8(&case),
            std::str::from_utf8(&case).is_ok(),
            "disagreement on {:?}",
            case
        );
    }
}

#[test]
fn test_u64_to_dec() {
    assert_eq!(u64_to_dec(0), "0");
    assert_eq!(u64_to_dec(7), "7");
    assert_eq!(u64_to_dec(10), "10");
    assert_eq!(u64_to_dec(12345), "12345");
    assert_eq!(u64_to_dec(u64::MAX), "18446744073709551615");
}
