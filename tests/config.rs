use fatherduck::config::{FatherDuckConfig, Storage, MEMORY_PATH};
use fatherduck::error::FatherDuckErrorHandler;

#[test]
fn test_fatherdb_config() {
    let config = FatherDuckConfig::default();
    assert_eq!(config.host, "127.0.0.1");
    assert_eq!(config.port, 5432);
    assert_eq!(config.username, "fatherduck");
    assert_eq!(config.password, "fatherduck");
}

#[test]
fn storage_follows_path() {
    let mut config = FatherDuckConfig::default_config();
    assert_eq!(config.path, MEMORY_PATH);
    assert!(matches!(config.storage(), Storage::InMemory));
    config.path = "/var/lib/data.duckdb".to_string();
    match config.storage() {
        Storage::File(p) => assert_eq!(p, "/var/lib/data.duckdb"),
        other => panic!("unexpected {other:?}"),
    }
}

#[test]
fn error_handler_is_stateless() {
    let handler = FatherDuckErrorHandler::new();
    assert_eq!(format!("{handler:?}"), "FatherDuckErrorHandler");
}
