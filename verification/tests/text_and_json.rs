use vnt_hub::json;
use vnt_hub::json::{JsonCell, JsonMember, JsonRow};
use vnt_hub::sql;
use vnt_hub::sql::SqlValue;
use vnt_hub::status::StatusCode;
use vnt_hub::text;

#[test]
fn white_space_is_trimmed_at_both_ends() {
    assert_eq!(text::trim("  a b\t\n"), "a b");
    assert_eq!(text::trim("\u{3000}\u{a0}x\u{2003}"), "x");
    assert_eq!(text::trim(" \t "), "");
    assert_eq!(text::trim("\u{200b}x"), "\u{200b}x");
    assert!(text::blank(" \u{85} "));
    assert!(text::blank(""));
    assert!(!text::blank(" x "));
}

#[test]
fn trimming_agrees_with_the_standard_library() {
    for code in 0u32..0x3100 {
        if let Some(c) = char::from_u32(code) {
            assert_eq!(text::is_space_char(c), c.is_whitespace());
        }
    }
}

#[test]
fn texts_are_split_and_joined() {
    assert_eq!(text::split("a.b..c", '.'), vec!["a", "b", "", "c"]);
    assert_eq!(text::split("", '.'), vec![""]);
    assert_eq!(
        text::split_once("n:c:d", ':'),
        Some(("n".to_string(), "c:d".to_string()))
    );
    assert_eq!(text::split_once("none", ':'), None);
    assert_eq!(text::head("10.0.0.1, 10.0.0.2", ','), "10.0.0.1");
    assert_eq!(text::head("10.0.0.1", ','), "10.0.0.1");
    assert_eq!(
        text::join(&vec!["a".to_string(), "b".to_string()], ", "),
        "a, b"
    );
    assert_eq!(text::join(&vec![], ", "), "");
    assert_eq!(
        text::strip_prefix("Bearer x", "Bearer "),
        Some("x".to_string())
    );
    assert_eq!(text::strip_prefix("Bear", "Bearer "), None);
    assert_eq!(text::slice_of("日本語", 1, 3), "本語");
    assert_eq!(text::concat("a", "b"), "ab");
    assert!(text::same_text("a", "a"));
    assert!(!text::same_text("a", "b"));
}

#[test]
fn numbers_are_written_and_read() {
    assert_eq!(text::decimal_text(0), "0");
    assert_eq!(text::decimal_text(18446744073709551615), "18446744073709551615");
    assert_eq!(text::parse_u64("42"), Some(42));
    assert_eq!(text::parse_u64("+42"), Some(42));
    assert_eq!(text::parse_u64("007"), Some(7));
    assert_eq!(
        text::parse_u64("18446744073709551615"),
        Some(18446744073709551615)
    );
    for refused in ["", "+", "-1", " 1", "1 ", "1.0", "18446744073709551616", "x"] {
        assert_eq!(text::parse_u64(refused), None);
        assert!(refused.parse::<u64>().is_err());
    }
}

#[test]
fn only_text_cells_are_read_as_text() {
    assert_eq!(
        JsonCell::Text("t".to_string()).as_str(),
        Some("t".to_string())
    );
    assert_eq!(JsonCell::Other("[]".to_string()).as_str(), None);
    assert_eq!(JsonCell::Unsigned(5).as_str(), None);
    assert_eq!(JsonCell::Null.as_str(), None);
}

#[test]
fn members_are_found_by_name() {
    let members = vec![
        JsonMember {
            name: "a".to_string(),
            value: JsonCell::Unsigned(1),
        },
        JsonMember {
            name: "b".to_string(),
            value: JsonCell::Null,
        },
    ];
    assert!(matches!(
        json::member(&members, "a"),
        Some(JsonCell::Unsigned(1))
    ));
    assert!(matches!(json::member(&members, "b"), Some(JsonCell::Null)));
    assert!(json::member(&members, "c").is_none());
    assert!(JsonRow::Object(members).get("a").is_some());
    assert!(JsonRow::Other.get("a").is_none());
}

#[test]
fn stored_numbers_are_in_twos_complement() {
    assert_eq!(sql::wrap_u64(5), 5);
    assert_eq!(sql::wrap_u64(9223372036854775807), i64::MAX);
    assert_eq!(sql::wrap_u64(9223372036854775808), i64::MIN);
    assert_eq!(sql::wrap_u64(u64::MAX), -1);
    assert_eq!(sql::truncate_u32(7), 7);
    assert_eq!(sql::truncate_u32(4294967296), 0);
    assert_eq!(sql::truncate_u32(-1), 4294967295);
}

#[test]
fn cells_of_rows_are_checked() {
    let row = vec![
        SqlValue::Text("t".to_string()),
        SqlValue::Integer(3),
        SqlValue::Null,
    ];
    assert_eq!(sql::text_at(&row, 0), Some("t".to_string()));
    assert_eq!(sql::text_at(&row, 1), None);
    assert_eq!(sql::text_at(&row, 9), None);
    assert_eq!(sql::integer_at(&row, 1), Some(3));
    assert_eq!(sql::integer_at(&row, 2), None);
    assert_eq!(sql::optional_text_at(&row, 2), Some(None));
    assert_eq!(
        sql::optional_text_at(&row, 0),
        Some(Some("t".to_string()))
    );
    assert_eq!(sql::optional_text_at(&row, 1), None);
    assert_eq!(sql::optional_integer_at(&row, 2), Some(None));
    assert_eq!(sql::optional_integer_at(&row, 1), Some(Some(3)));
    assert_eq!(sql::optional_integer_at(&row, 0), None);
}

#[test]
fn statuses_have_their_numbers() {
    let pairs = [
        (StatusCode::BadRequest, 400),
        (StatusCode::Unauthorized, 401),
        (StatusCode::Forbidden, 403),
        (StatusCode::NotFound, 404),
        (StatusCode::Conflict, 409),
        (StatusCode::TooManyRequests, 429),
        (StatusCode::InternalServerError, 500),
    ];
    for (status, number) in pairs {
        assert_eq!(status.as_u16(), number);
    }
}
