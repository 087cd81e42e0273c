use wabznasm::schema::{ColumnSchema, SchemaBuilder, SimpleDataType, TableSchema};
use wabznasm::store_config::QStoreConfig;

#[test]
fn test_config_builder() {
    let config = QStoreConfig::default()
        .with_compression(true)
        .with_max_file_size(2048)
        .with_mmap_buffer_size(4096);

    assert!(config.enable_compression);
    assert_eq!(config.max_file_size, 2048);
    assert_eq!(config.mmap_buffer_size, 4096);
}

#[test]
fn config_defaults_and_paths() {
    let config = QStoreConfig::new("base".to_string(), "trades".to_string());
    assert_eq!(config.max_file_size, 1024 * 1024 * 1024);
    assert!(!config.enable_compression);
    assert_eq!(config.mmap_buffer_size, 8192);
    assert_eq!(config.table_path(), "base/trades");
    assert_eq!(config.column_path("price"), "base/trades/price");
}

#[test]
fn test_column_schema() {
    let col = ColumnSchema::new_simple("price".to_string(), SimpleDataType::Float64)
        .with_nullable(false)
        .with_metadata("unit", "USD");

    assert_eq!(col.name, "price");
    assert_eq!(col.data_type, SimpleDataType::Float64);
    assert!(!col.nullable);
    assert_eq!(col.get_metadata("unit"), Some(&"USD".to_string()));
}

#[test]
fn column_metadata_replaces_value() {
    let col = ColumnSchema::new_simple("p".to_string(), SimpleDataType::Int64)
        .with_metadata("unit", "USD")
        .with_metadata("scale", "2")
        .with_metadata("unit", "EUR");
    assert_eq!(col.get_metadata("unit"), Some(&"EUR".to_string()));
    assert_eq!(col.get_metadata("scale"), Some(&"2".to_string()));
    assert_eq!(col.get_metadata("missing"), None);
    assert_eq!(col.metadata.len(), 2);
}

#[test]
fn test_table_schema() {
    let schema = TableSchema::new("test".to_string())
        .add_column(ColumnSchema::new_simple(
            "id".to_string(),
            SimpleDataType::Int64,
        ))
        .add_column(ColumnSchema::new_simple(
            "name".to_string(),
            SimpleDataType::Utf8,
        ));

    assert_eq!(schema.column_count(), 2);
    assert_eq!(schema.column_names(), vec!["id", "name"]);
    assert_eq!(schema.get_column_index("name"), Some(1));
    assert!(schema.get_column("id").is_some());
}

#[test]
fn test_schema_builders() {
    let ts_schema = SchemaBuilder::time_series();
    assert_eq!(ts_schema.column_count(), 2);
    assert!(ts_schema.get_column("time").is_some());
    assert!(ts_schema.get_column("value").is_some());

    let market_schema = SchemaBuilder::market_data();
    assert_eq!(market_schema.column_count(), 5);
    assert!(market_schema.get_column("symbol").is_some());
    assert!(market_schema.get_column("price").is_some());
}

#[test]
fn graph_schemas_and_table_metadata() {
    let nodes = SchemaBuilder::graph_nodes();
    assert_eq!(nodes.column_names(), vec!["id", "name", "type"]);
    assert!(!nodes.get_column("id").unwrap().nullable);
    let edges = SchemaBuilder::graph_edges().with_metadata("kind", "directed");
    assert_eq!(edges.column_names(), vec!["src", "dst", "weight", "label"]);
    assert_eq!(edges.get_column_index("weight"), Some(2));
    assert_eq!(edges.get_column_index("nope"), None);
    assert_eq!(edges.metadata.len(), 1);
}
