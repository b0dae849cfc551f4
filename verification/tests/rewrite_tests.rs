use dbmerge::error::MergeError;
use dbmerge::json::{parse_json, to_json_string, JsonValue};
use dbmerge::mapping::{EntityKind, MappingRegistry};
use dbmerge::rewrite::rewrite_embedded_array;
use dbmerge::rewrite::rewrite_scalar;
use dbmerge::value::SqlValue;

fn player_registry() -> MappingRegistry {
    let mut reg = MappingRegistry::new();
    reg.generate(EntityKind::Player, &vec![5i64, 6], 1000).unwrap();
    reg
}

#[test]
fn scalar_rewrite_maps_offsets_and_keeps_sentinel() {
    let reg = player_registry();
    assert_eq!(
        rewrite_scalar(SqlValue::Int(5), &reg, EntityKind::Player, -1),
        SqlValue::Int(1005)
    );
    assert_eq!(
        rewrite_scalar(SqlValue::Int(-1), &reg, EntityKind::Player, -1),
        SqlValue::Int(-1)
    );
    assert_eq!(
        rewrite_scalar(SqlValue::Int(77), &reg, EntityKind::Player, -1),
        SqlValue::Int(77)
    );
    assert_eq!(
        rewrite_scalar(SqlValue::Null, &reg, EntityKind::Player, -1),
        SqlValue::Null
    );
}

#[test]
fn raw_object_array_is_rewritten_in_place() {
    let reg = player_registry();
    let out = rewrite_embedded_array(r#"[{"id":5},{"id":9}]"#, &reg).unwrap();
    assert_eq!(out, r#"[{"id":1005},{"id":9}]"#);
}

#[test]
fn string_wrapped_array_keeps_its_encoding() {
    let reg = player_registry();
    let out = rewrite_embedded_array(r#"["{\"id\":5}","{\"id\":6}"]"#, &reg).unwrap();
    assert_eq!(out, r#"["{\"id\":1005}","{\"id\":1006}"]"#);
}

#[test]
fn mixed_encodings_fall_back_to_raw_objects() {
    let reg = player_registry();
    let out = rewrite_embedded_array(r#"[{"id":5},"{\"id\":6}"]"#, &reg).unwrap();
    assert_eq!(out, r#"[{"id":1005},{"id":1006}]"#);
}

#[test]
fn unmapped_ids_round_trip_structurally() {
    let reg = player_registry();
    // Only ids absent from the player mapping: values unchanged, encoding kept.
    let out = rewrite_embedded_array(r#"[{"id":70},{"id":81,"level":3}]"#, &reg).unwrap();
    assert_eq!(out, r#"[{"id":70},{"id":81,"level":3}]"#);
    let wrapped = rewrite_embedded_array(r#"["{\"id\":70}"]"#, &reg).unwrap();
    assert_eq!(wrapped, r#"["{\"id\":70}"]"#);
}

#[test]
fn member_without_numeric_id_passes_through() {
    let reg = player_registry();
    let out = rewrite_embedded_array(r#"[{"name":"x"},{"id":"5"},{"id":5}]"#, &reg).unwrap();
    assert_eq!(out, r#"[{"name":"x"},{"id":"5"},{"id":1005}]"#);
}

#[test]
fn empty_array_is_kept() {
    let reg = player_registry();
    assert_eq!(rewrite_embedded_array("[]", &reg).unwrap(), "[]");
}

#[test]
fn invalid_outer_json_is_refused() {
    let reg = player_registry();
    assert_eq!(
        rewrite_embedded_array("not json", &reg).unwrap_err(),
        MergeError::MalformedReference
    );
    assert_eq!(
        rewrite_embedded_array(r#"{"id":5}"#, &reg).unwrap_err(),
        MergeError::MalformedReference
    );
}

#[test]
fn invalid_inner_payload_is_refused() {
    let reg = player_registry();
    assert_eq!(
        rewrite_embedded_array(r#"["not json"]"#, &reg).unwrap_err(),
        MergeError::MalformedReference
    );
    // Valid JSON inside the string, but not an object.
    assert_eq!(
        rewrite_embedded_array(r#"["[1,2]"]"#, &reg).unwrap_err(),
        MergeError::MalformedReference
    );
}

#[test]
fn huge_member_ids_are_preserved_as_text() {
    let reg = player_registry();
    // A number outside i64 cannot be a mapped id; it must survive untouched.
    let out = rewrite_embedded_array(r#"[{"id":18446744073709551615}]"#, &reg).unwrap();
    assert_eq!(out, r#"[{"id":18446744073709551615}]"#);
}

#[test]
fn parse_and_serialize_agree_with_the_model() {
    let v = parse_json(r#"{"a":[1,true,null],"b":"x"}"#).unwrap();
    match &v {
        JsonValue::Obj(fields) => {
            assert_eq!(fields.len(), 2);
            assert_eq!(fields[0].0, "a");
            assert_eq!(fields[1].1, JsonValue::Str("x".to_string()));
        },
        other => panic!("unexpected parse: {:?}", other),
    }
    assert_eq!(to_json_string(&v), r#"{"a":[1,true,null],"b":"x"}"#);
    assert!(parse_json("{broken").is_none());
}
