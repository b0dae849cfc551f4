use dbmerge::digits::{clan_column_name, clan_table_name, i64_to_decimal, u64_to_decimal};
use dbmerge::value::{coerce_bit, str_eq, Row, SqlValue};

#[test]
fn bit_coercion_accepts_the_enumerated_shapes() {
    assert_eq!(coerce_bit(&SqlValue::Bytes(vec![])), Some(false));
    assert_eq!(coerce_bit(&SqlValue::Bytes(vec![0])), Some(false));
    assert_eq!(coerce_bit(&SqlValue::Bytes(vec![1])), Some(true));
    assert_eq!(coerce_bit(&SqlValue::Bytes(vec![7, 0])), Some(true));
    assert_eq!(coerce_bit(&SqlValue::Int(0)), Some(false));
    assert_eq!(coerce_bit(&SqlValue::Int(-3)), Some(true));
    assert_eq!(coerce_bit(&SqlValue::Uint(1)), Some(true));
    assert_eq!(coerce_bit(&SqlValue::Bool(true)), Some(true));
    assert_eq!(coerce_bit(&SqlValue::Null), None);
    assert_eq!(coerce_bit(&SqlValue::Text("1".to_string())), None);
}

#[test]
fn rows_find_the_first_matching_column() {
    let row = Row {
        cols: vec![
            ("a".to_string(), SqlValue::Int(1)),
            ("b".to_string(), SqlValue::Int(2)),
            ("a".to_string(), SqlValue::Int(3)),
        ],
    };
    assert_eq!(row.get("a"), Some(&SqlValue::Int(1)));
    assert_eq!(row.get("b"), Some(&SqlValue::Int(2)));
    assert_eq!(row.get("c"), None);
}

#[test]
fn set_col_replaces_or_appends() {
    let mut row = Row { cols: vec![("a".to_string(), SqlValue::Int(1))] };
    row.set_col("a".to_string(), SqlValue::Int(9));
    assert_eq!(row.cols.len(), 1);
    assert_eq!(row.get("a"), Some(&SqlValue::Int(9)));
    row.set_col("b".to_string(), SqlValue::Null);
    assert_eq!(row.cols.len(), 2);
    assert_eq!(row.get("b"), Some(&SqlValue::Null));
}

#[test]
fn string_slices_compare_by_contents() {
    assert!(str_eq("abc", "abc"));
    assert!(!str_eq("abc", "abd"));
    assert!(str_eq("", ""));
}

#[test]
fn decimal_rendering_is_exact() {
    assert_eq!(u64_to_decimal(0), "0");
    assert_eq!(u64_to_decimal(7), "7");
    assert_eq!(u64_to_decimal(10), "10");
    assert_eq!(u64_to_decimal(255), "255");
    assert_eq!(u64_to_decimal(1234567890), "1234567890");
    assert_eq!(i64_to_decimal(0), "0");
    assert_eq!(i64_to_decimal(-42), "-42");
    assert_eq!(i64_to_decimal(i64::MIN), "-9223372036854775808");
    assert_eq!(i64_to_decimal(i64::MAX), "9223372036854775807");
}

#[test]
fn server_table_names_follow_the_target_server() {
    assert_eq!(clan_table_name(4), "clan_sv4");
    assert_eq!(clan_table_name(13), "clan_sv13");
    assert_eq!(clan_column_name(4), "clan_id_sv4");
    assert_eq!(clan_column_name(255), "clan_id_sv255");
}
