use mimir_well_engine::error::CodecError;
use mimir_well_engine::table_reference::{
    decode_table_reference, encode_table_reference, TableReference,
};

fn tr(catalog: Option<&str>, schema: Option<&str>, table: Option<&str>) -> TableReference {
    TableReference {
        catalog: catalog.map(|s| s.to_string()),
        schema: schema.map(|s| s.to_string()),
        table: table.map(|s| s.to_string()),
    }
}

#[test]
fn test_table_reference_serialize() {
    let cases = [
        (
            Some("catalog.schema.table".to_string()),
            Some(tr(Some("catalog"), Some("schema"), Some("table"))),
        ),
        (
            Some("schema.table".to_string()),
            Some(tr(None, Some("schema"), Some("table"))),
        ),
        (Some("table".to_string()), Some(tr(None, None, Some("table")))),
        (None, None),
    ];
    for (table_ref, expected) in cases.iter() {
        assert_eq!(encode_table_reference(table_ref).unwrap(), *expected);
    }
}

#[test]
fn test_case_sensitive() {
    let table_ref = Some(r#""Catalog"."Schema"."Table""#.to_string());
    let encoded = encode_table_reference(&table_ref).unwrap();
    assert_eq!(encoded, Some(tr(Some("Catalog"), Some("Schema"), Some("Table"))));
}

#[test]
fn decode_then_encode_three_parts() {
    let decoded = decode_table_reference(Some(tr(Some("C"), Some("S"), Some("T"))));
    assert_eq!(decoded, Some("C.S.T".to_string()));
    let encoded = encode_table_reference(&decoded).unwrap();
    assert_eq!(encoded, Some(tr(Some("c"), Some("s"), Some("t"))));
}

#[test]
fn decode_then_encode_table_only() {
    let decoded = decode_table_reference(Some(tr(None, None, Some("T"))));
    assert_eq!(decoded, Some("T".to_string()));
    let encoded = encode_table_reference(&decoded).unwrap();
    assert_eq!(encoded, Some(tr(None, None, Some("t"))));
}

#[test]
fn quoted_parts_round_trip_with_case() {
    let s = Some(r#""My Cat"."MySchema".Tbl"#.to_string());
    let encoded = encode_table_reference(&s).unwrap();
    assert_eq!(encoded, Some(tr(Some("My Cat"), Some("MySchema"), Some("tbl"))));
    let decoded = decode_table_reference(encoded);
    assert_eq!(decoded, Some("My Cat.MySchema.tbl".to_string()));
}

#[test]
fn decode_skips_missing_and_empty_parts() {
    assert_eq!(
        decode_table_reference(Some(tr(Some("c"), Some(""), Some("t")))),
        Some("c.t".to_string())
    );
    assert_eq!(
        decode_table_reference(Some(tr(None, Some("s"), None))),
        Some("s".to_string())
    );
}

#[test]
fn decode_of_nothing_is_absent() {
    assert_eq!(decode_table_reference(None), None);
    assert_eq!(decode_table_reference(Some(tr(None, None, None))), None);
    assert_eq!(decode_table_reference(Some(tr(Some(""), Some(""), Some("")))), None);
}

#[test]
fn four_parts_are_too_long() {
    let s = Some("a.b.c.d".to_string());
    assert_eq!(encode_table_reference(&s), Err(CodecError::TableReferenceTooLong));
    let s = Some("a.b.c.d.e".to_string());
    assert_eq!(encode_table_reference(&s), Err(CodecError::TableReferenceTooLong));
}

#[test]
fn malformed_reference_fails_to_encode() {
    let s = Some("a..b".to_string());
    assert_eq!(encode_table_reference(&s), Err(CodecError::IdentifierSyntax));
}
