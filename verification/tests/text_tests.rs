use calby_docs::text::decimal_text;

#[test]
fn decimal_matches_format() {
    for n in [0u128, 7, 10, 99, 100, 1700000000000, u128::MAX] {
        assert_eq!(decimal_text(n), format!("{}", n));
    }
}
