use crm::config::{config_source, ConfigError, ConfigSource};

#[test]
fn local_file_wins() {
    assert!(matches!(config_source(true, true, Some("/x.yml".to_string())), Ok(ConfigSource::Local)));
    assert!(matches!(config_source(true, false, None), Ok(ConfigSource::Local)));
}

#[test]
fn system_file_comes_second() {
    assert!(matches!(config_source(false, true, Some("/x.yml".to_string())), Ok(ConfigSource::System)));
}

#[test]
fn env_path_comes_last() {
    match config_source(false, false, Some("/x.yml".to_string())) {
        Ok(ConfigSource::Env(p)) => assert_eq!(p, "/x.yml"),
        other => panic!("unexpected {:?}", other),
    }
}

#[test]
fn nothing_found_is_an_error() {
    assert_eq!(config_source(false, false, None).unwrap_err(), ConfigError::NotFound);
}
