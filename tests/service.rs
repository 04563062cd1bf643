use mimir_well_engine::config::{Settings, DEFAULT_PORT};
use mimir_well_engine::connector::PostgresConnector;
use mimir_well_engine::engine::{Analyzer, Rewriter};
use mimir_well_engine::error::Error;
use mimir_well_engine::manifest::{DataSource, Manifest};
use mimir_well_engine::request::ConnectionInfo;

fn empty_manifest() -> Manifest {
    Manifest {
        catalog: "c".to_string(),
        schema: "s".to_string(),
        models: vec![],
        relationships: vec![],
        metrics: vec![],
        views: vec![],
        data_source: None,
    }
}

#[test]
fn default_settings_port() {
    assert_eq!(Settings::default().server.port, 8080);
    assert_eq!(DEFAULT_PORT, 8080);
}

#[test]
fn default_data_source_is_datafusion() {
    assert_eq!(DataSource::default(), DataSource::Datafusion);
}

#[test]
fn postgres_connector_keeps_info() {
    let info = ConnectionInfo {
        host: "localhost".to_string(),
        port: 5432,
        database: "db".to_string(),
        user: "u".to_string(),
        password: "p".to_string(),
        schema: None,
    };
    let c = PostgresConnector::new(info.clone());
    assert_eq!(c.connection_info(), &info);
    assert_eq!(c.name(), "postgres");
}

#[test]
fn rewriter_and_analyzer_report_missing_engine() {
    let m = empty_manifest();
    assert!(matches!(Rewriter::new().rewrite(&m, "select 1"), Err(Error::Planning(_))));
    assert!(matches!(Rewriter::default().rewrite(&m, "select 1"), Err(Error::Planning(_))));
    assert!(matches!(Analyzer.analyze(&m), Err(Error::Mdl(_))));
}

#[test]
fn engine_errors_carry_message() {
    let m = empty_manifest();
    assert_eq!(Rewriter::new().rewrite(&m, "select 1"), Err(Error::Planning("Not implemented yet".to_string())));
    assert_eq!(Analyzer.analyze(&m).err(), Some(Error::Mdl("Not implemented yet".to_string())));
}
