use live_player::text::{concat2, concat3, decimal_text, join_decimals, starts_with};

#[test]
fn decimal_of_small_and_large_numbers() {
    assert_eq!(decimal_text(0), "0");
    assert_eq!(decimal_text(7), "7");
    assert_eq!(decimal_text(10), "10");
    assert_eq!(decimal_text(1920), "1920");
    assert_eq!(decimal_text(4_294_967_295), "4294967295");
    assert_eq!(decimal_text(u64::MAX), "18446744073709551615");
}

#[test]
fn decimal_of_single_digits() {
    for d in 0..10u64 {
        assert_eq!(decimal_text(d), d.to_string());
    }
}

#[test]
fn concatenation_keeps_order() {
    assert_eq!(concat2("output_", "a"), "output_a");
    assert_eq!(concat2("", ""), "");
    assert_eq!(concat3("a", ": ", "b"), "a: b");
}

#[test]
fn prefix_test() {
    assert!(starts_with("video/x-raw", "video/"));
    assert!(!starts_with("audio/x-raw", "video/"));
    assert!(!starts_with("video", "video/"));
    assert!(starts_with("anything", ""));
    assert!(starts_with("", ""));
    assert!(!starts_with("", "a"));
    assert!(starts_with("vidéo/x", "vidéo/"));
}

#[test]
fn joining_channel_numbers() {
    assert_eq!(join_decimals(&vec![], ","), "");
    assert_eq!(join_decimals(&vec![3], ","), "3");
    assert_eq!(join_decimals(&vec![1, 2, 10], ","), "1,2,10");
    assert_eq!(join_decimals(&vec![0, 0], ", "), "0, 0");
}
