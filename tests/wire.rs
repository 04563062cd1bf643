use std::sync::Arc;

use mimir_well_engine::cls::NormalizedExprType;
use mimir_well_engine::error::CodecError;
use mimir_well_engine::legacy_bool::WireValue;
use mimir_well_engine::manifest::{
    ColumnLevelOperator, DataSource, JoinType, Manifest, Model, Relationship, TimeGrain, TimeUnit, View,
};
use mimir_well_engine::session::SessionPropertyWire;
use mimir_well_engine::table_reference::TableReference;
use mimir_well_engine::wire::{
    decode_flag, ColumnLevelAccessControlWire, ColumnWire, ManifestDecodeError, ManifestSection,
    ManifestWire, MetricWire, ModelWire,
};

fn s(x: &str) -> String {
    x.to_string()
}

fn column(name: &str, flag: Option<WireValue>, expression: Option<&str>) -> ColumnWire {
    ColumnWire {
        name: s(name),
        column_type: s("integer"),
        relationship: None,
        is_calculated: flag,
        not_null: None,
        expression: expression.map(s),
        is_hidden: None,
        column_level_access_control: None,
    }
}

fn model(table_reference: Option<TableReference>, cached: Option<WireValue>) -> ModelWire {
    ModelWire {
        name: s("orders"),
        ref_sql: None,
        base_object: None,
        table_reference,
        columns: vec![column("id", Some(WireValue::UInt(1)), Some(""))],
        primary_key: Some(s("id")),
        cached,
        refresh_time: None,
        row_level_access_controls: vec![],
    }
}

fn manifest(models: Vec<ModelWire>, metrics: Vec<MetricWire>) -> ManifestWire {
    ManifestWire {
        catalog: s("cat"),
        schema: s("sch"),
        models,
        relationships: vec![],
        metrics,
        views: vec![],
        data_source: Some(DataSource::Postgres),
    }
}

fn tr(catalog: Option<&str>, schema: Option<&str>, table: Option<&str>) -> TableReference {
    TableReference { catalog: catalog.map(s), schema: schema.map(s), table: table.map(s) }
}

#[test]
fn missing_flag_reads_false() {
    assert_eq!(decode_flag(None), Ok(false));
    assert_eq!(decode_flag(Some(WireValue::UInt(3))), Ok(true));
    assert_eq!(decode_flag(Some(WireValue::Other)), Err(CodecError::InvalidBoolean));
}

#[test]
fn model_decode_applies_codecs() {
    let m = Model::from_wire(&model(Some(tr(Some("C"), Some("S"), Some("T"))), Some(WireValue::UInt(1))))
        .unwrap();
    assert_eq!(m.table_reference, Some(s("C.S.T")));
    assert!(m.cached);
    assert!(m.columns[0].is_calculated);
    assert!(!m.columns[0].not_null);
    assert_eq!(m.columns[0].expression, None);
}

#[test]
fn table_reference_end_to_end_three_fields() {
    let m = Model::from_wire(&model(Some(tr(Some("C"), Some("S"), Some("T"))), None)).unwrap();
    let w = m.to_wire().unwrap();
    assert_eq!(w.table_reference, Some(tr(Some("c"), Some("s"), Some("t"))));
    let m = Model::from_wire(&model(Some(tr(Some("c"), Some("s"), Some("t"))), None)).unwrap();
    assert_eq!(m.to_wire().unwrap().table_reference, Some(tr(Some("c"), Some("s"), Some("t"))));
}

#[test]
fn table_reference_end_to_end_table_only() {
    let m = Model::from_wire(&model(Some(tr(None, None, Some("T"))), None)).unwrap();
    let w = m.to_wire().unwrap();
    assert_eq!(w.table_reference, Some(tr(None, None, Some("t"))));
    let m = Model::from_wire(&model(None, None)).unwrap();
    assert_eq!(m.table_reference, None);
    assert_eq!(m.to_wire().unwrap().table_reference, None);
}

#[test]
fn model_encode_writes_native_booleans() {
    let m = Model::from_wire(&model(None, Some(WireValue::UInt(0)))).unwrap();
    let w = m.to_wire().unwrap();
    assert_eq!(w.cached, Some(WireValue::Bool(false)));
    assert_eq!(w.columns[0].is_calculated, Some(WireValue::Bool(true)));
    assert_eq!(w.columns[0].expression, Some(s("")));
}

#[test]
fn model_with_bad_flag_fails() {
    let r = Model::from_wire(&model(None, Some(WireValue::Other)));
    assert_eq!(r, Err(CodecError::InvalidBoolean));
}

#[test]
fn column_access_control_threshold() {
    let mut c = column("salary", None, None);
    c.column_level_access_control = Some(ColumnLevelAccessControlWire {
        name: s("cls"),
        required_properties: vec![SessionPropertyWire { name: s("Level"), required: true, default_expr: None }],
        operator: ColumnLevelOperator::GreaterThan,
        threshold: s("'high'"),
    });
    let mut w = model(None, None);
    w.columns.push(c.clone());
    let m = Model::from_wire(&w).unwrap();
    let cls = m.columns[1].column_level_access_control.as_ref().unwrap();
    assert_eq!(cls.threshold.value, "high");
    assert_eq!(cls.threshold.data_type, NormalizedExprType::String);
    assert_eq!(cls.required_properties[0].normalized_name(), "level");
    assert_eq!(cls.to_wire().threshold, "'high'");

    c.column_level_access_control.as_mut().unwrap().threshold = s("");
    let mut w = model(None, None);
    w.columns.push(c);
    assert_eq!(Model::from_wire(&w), Err(CodecError::EmptyExpression));
}

#[test]
fn manifest_decode_is_all_or_nothing() {
    let good = model(Some(tr(None, Some("s"), Some("t"))), None);
    let bad = model(None, Some(WireValue::Other));
    let m = Manifest::from_wire(manifest(vec![good.clone()], vec![])).unwrap();
    assert_eq!(m.models.len(), 1);
    assert_eq!(m.data_source, Some(DataSource::Postgres));
    assert_eq!(
        Manifest::from_wire(manifest(vec![good, bad], vec![])),
        Err(ManifestDecodeError { section: ManifestSection::Models, index: 1, error: CodecError::InvalidBoolean })
    );
}

#[test]
fn manifest_decode_fails_on_bad_metric() {
    let metric = MetricWire {
        name: s("revenue"),
        base_object: s("orders"),
        dimension: vec![column("d", Some(WireValue::Other), None)],
        measure: vec![],
        time_grain: vec![],
        cached: None,
        refresh_time: None,
    };
    assert_eq!(
        Manifest::from_wire(manifest(vec![model(None, None)], vec![metric])),
        Err(ManifestDecodeError { section: ManifestSection::Metrics, index: 0, error: CodecError::InvalidBoolean })
    );
}

#[test]
fn manifest_encode_fails_on_long_reference() {
    let mut m = Manifest::from_wire(manifest(vec![model(None, None)], vec![])).unwrap();
    let mut inner: Model = (*m.models[0]).clone();
    inner.table_reference = Some(s("a.b.c.d"));
    m.models[0] = Arc::new(inner);
    assert_eq!(m.to_wire(), Err(CodecError::TableReferenceTooLong));
}

#[test]
fn manifest_encode_keeps_every_field() {
    let metric = MetricWire {
        name: s("revenue"),
        base_object: s("orders"),
        dimension: vec![],
        measure: vec![],
        time_grain: vec![TimeGrain { name: s("g"), ref_column: s("ts"), date_parts: vec![TimeUnit::Day] }],
        cached: Some(WireValue::UInt(1)),
        refresh_time: Some(s("1h")),
    };
    let mut w = manifest(vec![model(None, None)], vec![metric.clone()]);
    w.models[0].ref_sql = Some(s("select 1"));
    w.relationships.push(Arc::new(Relationship {
        name: s("r"),
        models: vec![s("a"), s("b")],
        join_type: JoinType::OneToMany,
        condition: s("a.id = b.id"),
    }));
    w.views.push(Arc::new(View { name: s("v"), statement: s("select 2") }));
    let back = Manifest::from_wire(w.clone()).unwrap().to_wire().unwrap();
    assert_eq!(back.models[0].ref_sql, Some(s("select 1")));
    assert_eq!(back.models[0].primary_key, Some(s("id")));
    assert_eq!(back.relationships, w.relationships);
    assert_eq!(back.views, w.views);
    assert_eq!(back.metrics[0].time_grain, metric.time_grain);
    assert_eq!(back.metrics[0].cached, Some(WireValue::Bool(true)));
}

#[test]
fn engine_messages() {
    assert_eq!(CodecError::EmptyExpression.message(), "expr is null or empty");
}
