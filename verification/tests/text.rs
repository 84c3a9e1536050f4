use ponoma::docs::schema::{schema_kind, short_name, SchemaKind};
use ponoma::named_api::to_pascal;
use ponoma::prospect::category_risk;
use ponoma::text::{contains_str, decimal_text, trim};

#[test]
fn pascal_case_of_snake_names() {
    assert_eq!(to_pascal("get_user"), "GetUser");
    assert_eq!(to_pascal("list"), "List");
    assert_eq!(to_pascal("a__b"), "AB");
    assert_eq!(to_pascal(""), "");
}

#[test]
fn category_risk_is_case_insensitive() {
    assert_eq!(category_risk("Fixed Income"), 1);
    assert_eq!(category_risk("BOND"), 1);
    assert_eq!(category_risk("Balanced"), 3);
    assert_eq!(category_risk("ESG"), 3);
    assert_eq!(category_risk("Equity"), 4);
    assert_eq!(category_risk("Growth"), 5);
    assert_eq!(category_risk("crypto"), 3);
}

#[test]
fn schema_fallback_kinds() {
    assert_eq!(schema_kind("u64"), SchemaKind::Integer);
    assert_eq!(schema_kind(" i32 "), SchemaKind::Integer);
    assert_eq!(schema_kind("f64"), SchemaKind::Number);
    assert_eq!(schema_kind("bool"), SchemaKind::Boolean);
    assert_eq!(schema_kind("alloc::string::String"), SchemaKind::Text);
    assert_eq!(schema_kind("alloc::vec::Vec<u8>"), SchemaKind::Array);
    assert_eq!(schema_kind("[u8; 4]"), SchemaKind::Array);
    assert_eq!(schema_kind("my_crate::User"), SchemaKind::Object { title: "User".to_string() });
    assert_eq!(short_name("a::b::C<d::E>"), "C");
}

#[test]
fn small_text_helpers() {
    assert_eq!(decimal_text(0), "0");
    assert_eq!(decimal_text(18446744073709551615), "18446744073709551615");
    assert_eq!(trim("  x y \n"), "x y");
    assert!(contains_str("order exceeds limit", "exceeds"));
    assert!(!contains_str("ok", "exceeds"));
}

#[test]
fn unicode_white_space_is_trimmed() {
    assert_eq!(trim("\u{3000}\u{85}x y\u{2009}\t"), "x y");
    assert!(ponoma::text::is_white_space('\u{a0}'));
    assert!(!ponoma::text::is_white_space('\u{200b}'));
    assert!(!ponoma::text::is_white_space('a'));
}
