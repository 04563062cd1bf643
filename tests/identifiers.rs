use mimir_well_engine::error::CodecError;
use mimir_well_engine::identifier::{parse_identifiers, parse_identifiers_normalized};

#[test]
fn test_parse_identifiers_quoted() {
    let input = r#""Catalog"."Schema"."Table""#;
    let result = parse_identifiers(input).unwrap();

    assert_eq!(result.len(), 3);
    assert_eq!(result[0].0, "Catalog");
    assert_eq!(result[0].1, Some('"'));
    assert_eq!(result[1].0, "Schema");
    assert_eq!(result[1].1, Some('"'));
    assert_eq!(result[2].0, "Table");
    assert_eq!(result[2].1, Some('"'));
}

#[test]
fn test_parse_identifiers_unquoted() {
    let input = "catalog.schema.table";
    let result = parse_identifiers(input).unwrap();

    assert_eq!(result.len(), 3);
    assert_eq!(result[0].0, "catalog");
    assert_eq!(result[0].1, None);
    assert_eq!(result[1].0, "schema");
    assert_eq!(result[1].1, None);
    assert_eq!(result[2].0, "table");
    assert_eq!(result[2].1, None);
}

#[test]
fn test_parse_identifiers_normalized_quoted() {
    let input = r#""Catalog"."Schema"."Table""#;
    let result = parse_identifiers_normalized(input, false).unwrap();
    assert_eq!(result, vec!["Catalog", "Schema", "Table"]);
}

#[test]
fn test_parse_identifiers_normalized_unquoted() {
    let input = "Catalog.Schema.Table";
    let result = parse_identifiers_normalized(input, false).unwrap();
    assert_eq!(result, vec!["catalog", "schema", "table"]);
}

#[test]
fn test_parse_identifiers_single_part() {
    let input = r#""MyTable""#;
    let result = parse_identifiers(input).unwrap();

    assert_eq!(result.len(), 1);
    assert_eq!(result[0].0, "MyTable");
    assert_eq!(result[0].1, Some('"'));
}

#[test]
fn normalized_ignore_case_keeps_unquoted_case() {
    let result = parse_identifiers_normalized(r#"Catalog."Schema".TABLE"#, true).unwrap();
    assert_eq!(result, vec!["Catalog", "Schema", "TABLE"]);
}

#[test]
fn normalized_mixed_quoting_folds_only_unquoted() {
    let result = parse_identifiers_normalized(r#"Catalog."Schema".TABLE"#, false).unwrap();
    assert_eq!(result, vec!["catalog", "Schema", "table"]);
}

#[test]
fn quoted_part_may_hold_dots() {
    let result = parse_identifiers_normalized(r#""a.b".C"#, false).unwrap();
    assert_eq!(result, vec!["a.b", "c"]);
}

#[test]
fn malformed_identifiers_are_syntax_errors() {
    assert_eq!(parse_identifiers("a."), Err(CodecError::IdentifierSyntax));
    assert_eq!(parse_identifiers(r#""unterminated"#), Err(CodecError::IdentifierSyntax));
    assert_eq!(parse_identifiers(""), Err(CodecError::IdentifierSyntax));
    assert_eq!(parse_identifiers_normalized("a..b", false), Err(CodecError::IdentifierSyntax));
}
