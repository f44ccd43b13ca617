use mc_components::number_text::{i32_text, u64_text};

#[test]
fn decimal_text_matches_display() {
    for n in [0u64, 7, 10, 99, 100, 12345, u64::MAX] {
        assert_eq!(u64_text(n), n.to_string());
    }
    for n in [0i32, 1, -1, 9, -10, 2147483647, i32::MIN] {
        assert_eq!(i32_text(n), n.to_string());
    }
}
