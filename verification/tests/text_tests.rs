use wininfra::clus::csv::Csv;
use wininfra::clus::states::{owner_from_buffer, ResourceState};
use wininfra::hello::{age_from_days, Person};
use wininfra::text::{contains_str, decimal, parse_hex, split_char, strip_delimiters, trim};
use wininfra::wide::{decode_utf16_lossy, from_wide, to_wide};

#[test]
fn substring_search() {
    assert!(contains_str("hello world", "o w"));
    assert!(contains_str("abc", ""));
    assert!(contains_str("", ""));
    assert!(!contains_str("", "a"));
    assert!(!contains_str("abc", "abcd"));
    assert!(contains_str("aaab", "aab"));
    assert!(!contains_str("ABC", "abc"));
}

#[test]
fn text_helpers() {
    assert_eq!(trim(" \t a b \n"), "a b");
    assert_eq!(trim(""), "");
    assert_eq!(decimal(0), "0");
    assert_eq!(decimal(1000), "1000");
    assert_eq!(split_char("a-b--c", '-'), vec!["a", "b", "", "c"]);
    assert_eq!(split_char("", '-'), vec![""]);
    assert_eq!(strip_delimiters("{{x}}", '{', '}'), "x");
}

#[test]
fn hex_numbers() {
    assert_eq!(parse_hex("ff", 255), Some(255));
    assert_eq!(parse_hex("100", 255), None);
    assert_eq!(parse_hex("DeadBeef", 0xffff_ffff), Some(0xdeadbeef));
    assert_eq!(parse_hex("", 10), None);
    assert_eq!(parse_hex("xyz", 10), None);
    assert_eq!(parse_hex("+a", 15), Some(10));
}

#[test]
fn wide_strings_round_trip() {
    let w = to_wide("Ab€😀");
    assert_eq!(w, vec![0x41, 0x62, 0x20ac, 0xd83d, 0xde00, 0]);
    assert_eq!(from_wide(&w), "Ab€😀");
    assert_eq!(from_wide(&[0x68, 0x69, 0, 0x78]), "hi");
    assert_eq!(from_wide(&[0x68, 0x69]), "hi");
    assert_eq!(decode_utf16_lossy(&[0xd800, 0x41]), "\u{fffd}A");
    assert_eq!(owner_from_buffer(&[0x4e, 0x31, 0]), Some("N1".to_string()));
    assert_eq!(owner_from_buffer(&[0, 0x4e]), None);
}

#[test]
fn csv_helpers() {
    let info = Csv::volume_info("Volume1", ResourceState::Online, Some("node".to_string()));
    assert_eq!(info.friendly_name, "Volume1");
    assert_eq!(info.mount_point, "C:\\ClusterStorage\\Volume1");
    assert!(!info.in_maintenance);
    let name = Csv::maintenance_volume_name("V1");
    assert_eq!(name.len(), 260);
    assert_eq!(&name[..3], &[0x56, 0x31, 0]);
    assert!(name[3..].iter().all(|u| *u == 0));
    assert_eq!(
        Csv::control_failure("Failed to set maintenance mode", 5).to_string(),
        "Cluster operation failed: Failed to set maintenance mode: error 5"
    );
}

#[test]
fn ages() {
    assert_eq!(age_from_days(0), 0);
    assert_eq!(age_from_days(364), 0);
    assert_eq!(age_from_days(365), 1);
    assert_eq!(age_from_days(3652), 10);
    assert_eq!(age_from_days(-1), (u32::MAX / 365));
    let p = Person::new(&"Leap".to_string(), 951782400);
    assert_eq!(p.name, "Leap");
    // 5474 whole days are 14 years of 365 days; 5475 are 15
    assert_eq!(p.age_at(951782400 + 5474 * 86400), Some(14));
    assert_eq!(p.age_at(951782400 + 5475 * 86400), Some(15));
    assert_eq!(p.age_at(951782400 + 5475 * 86400 - 1), Some(14));
    assert_eq!(p.age_at(951782400 + 86399), Some(0));
    assert!(p.age().is_some());
    assert_eq!(p.age_at(i64::MAX), None);
}
