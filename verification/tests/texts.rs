use boldtrax::table::Table;
use boldtrax::text;
use boldtrax::time::UtcTime;

#[test]
fn texts_are_joined_and_split() {
    assert_eq!(text::concat("ab", "cd"), "abcd");
    assert_eq!(text::concat3("a", "-", "b"), "a-b");
    assert_eq!(text::join(&vec!["a".to_string(), "b".to_string(), "c".to_string()], ", "), "a, b, c");
    assert_eq!(text::join(&Vec::new(), ", "), "");
    assert_eq!(text::split("a-b--c", '-'), vec!["a", "b", "", "c"]);
    assert_eq!(text::split("", '-'), vec![""]);
    assert_eq!(text::first_piece("btcusdt@depth5@100ms", '@'), "btcusdt");
    assert_eq!(text::first_piece("btcusdt", '@'), "btcusdt");
    assert!(text::contains("not implemented yet", "implemented"));
    assert!(!text::contains("short", "a longer text"));
    assert!(text::contains("anything", ""));
    assert!(text::same("é", "é"));
    assert!(!text::same("a", "b"));
}

#[test]
fn numbers_are_written_and_read_back() {
    for n in [0u64, 7, 10, 1_737_410_400_000, u64::MAX] {
        assert_eq!(text::number(n), n.to_string());
        assert_eq!(text::parse_unsigned(&text::number(n)), Some(n));
    }
    for n in [0i64, -1, i64::MIN, i64::MAX] {
        assert_eq!(text::signed_number(n), n.to_string());
        assert_eq!(text::parse_signed(&text::signed_number(n)), Some(n));
    }
    assert_eq!(text::parse_unsigned("+5"), Some(5));
    assert_eq!(text::parse_unsigned("-5"), None);
    assert_eq!(text::parse_unsigned(""), None);
    assert_eq!(text::parse_unsigned("+"), None);
    assert_eq!(text::parse_unsigned("18446744073709551616"), None);
    assert_eq!(text::parse_signed("12a"), None);
    assert_eq!(text::parse_signed("9223372036854775808"), None);
}

#[test]
fn letters_become_small() {
    assert_eq!(text::to_ascii_lower("BTC-É"), "btc-É");
}

#[test]
fn text_is_cut_at_whole_characters() {
    assert_eq!(text::cut("abcdef", 3), Some("abc".to_string()));
    assert_eq!(text::cut("abc", 10), Some("abc".to_string()));
    assert_eq!(text::cut("aé", 2), None);
    assert_eq!(text::cut("aé", 3), Some("aé".to_string()));
}

#[test]
fn time_is_told_in_milliseconds() {
    let t = UtcTime::from_millis(1_737_410_400_000).unwrap();
    assert_eq!(t.timestamp_millis(), 1_737_410_400_000);
    assert_eq!(t, UtcTime::from_seconds(1_737_410_400).unwrap());
    assert_eq!(t.to_string(), "2025-01-20 22:00:00 UTC");
    let later = UtcTime::from_millis(1_737_410_400_250).unwrap();
    assert_eq!(later.nanos_since(&t), 250_000_000);
    assert_eq!(t.nanos_since(&later), -250_000_000);
    assert_eq!(UtcTime::from_millis(-1).unwrap().timestamp_millis(), -1);
    assert!(UtcTime::from_millis(i64::MAX).is_none());
    assert!(UtcTime::from_millis(i64::MIN).is_none());
    assert!(UtcTime::from_seconds(i64::MAX).is_none());
}

#[test]
fn clock_goes_forward_from_the_past() {
    let t = UtcTime::from_millis(1_700_000_000_000).unwrap();
    assert!(UtcTime::now().nanos_since(&t) > 0);
}

#[test]
fn table_keeps_one_row_for_each_key() {
    let mut table: Table<String, u32> = Table::new();
    assert_eq!(table.len(), 0);
    table.insert("a".to_string(), 1);
    table.insert("b".to_string(), 2);
    table.insert("a".to_string(), 3);
    assert_eq!(table.len(), 2);
    assert_eq!(table.get(&"a".to_string()), Some(&3));
    assert!(table.contains(&"b".to_string()));
    assert_eq!(table.index_of(&"c".to_string()), None);
    let (key, value) = table.row(table.index_of(&"b".to_string()).unwrap());
    assert_eq!((key.as_str(), *value), ("b", 2));
    assert_eq!(table.remove(&"a".to_string()), Some(3));
    assert_eq!(table.remove(&"a".to_string()), None);
    assert_eq!(table.get(&"a".to_string()), None);
    assert_eq!(table.len(), 1);
}

#[test]
fn times_end_with_the_calendar() {
    assert!(UtcTime::from_seconds(-8_334_601_228_800).is_some());
    assert!(UtcTime::from_seconds(-8_334_601_228_801).is_none());
    assert!(UtcTime::from_seconds(8_210_266_876_799).is_some());
    assert!(UtcTime::from_seconds(8_210_266_876_800).is_none());
    assert!(UtcTime::from_millis(8_210_266_876_799_999).is_some());
    assert!(UtcTime::from_millis(8_210_266_876_800_000).is_none());
    assert!(UtcTime::from_millis(-8_334_601_228_800_000).is_some());
    assert!(UtcTime::from_millis(-8_334_601_228_800_001).is_none());
}

#[test]
fn times_are_made_of_their_parts() {
    let t = UtcTime::from_parts(-2, 999_999_999).unwrap();
    assert_eq!(t.parts(), (-2, 999_999_999));
    assert_eq!(t.timestamp_millis(), -1_001);
    assert_eq!(UtcTime::from_millis(-1).unwrap().parts(), (-1, 999_000_000));
    assert!(UtcTime::from_parts(0, 1_000_000_000).is_none());
    assert!(UtcTime::from_parts(8_210_266_876_800, 0).is_none());
}
