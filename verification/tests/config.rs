use louter::config::{
    default_db_path, default_host, default_max_samples, default_port, default_true, DatabaseConfig,
    DistillationConfig, ServerConfig,
};

#[test]
fn default_values() {
    assert_eq!(default_host(), "127.0.0.1");
    assert_eq!(default_port(), 6188);
    assert_eq!(default_db_path(), "louter.db");
    assert!(default_true());
    assert_eq!(default_max_samples(), 100_000);
}

#[test]
fn default_sections() {
    let s = ServerConfig::default();
    assert_eq!(s.host, "127.0.0.1");
    assert_eq!(s.port, 6188);
    assert_eq!(DatabaseConfig::default().path, "louter.db");
    let d = DistillationConfig::default();
    assert!(d.collect_training_data);
    assert_eq!(d.max_samples, 100_000);
    assert!(d.only_successful);
}
