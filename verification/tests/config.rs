use punter::config::{CliConfig, FileConfig, SubCommand, SyncConfig};
use punter::links::{FileMap, LinkSpec};

#[test]
fn empty_sync_config_gives_no_directory() {
    assert_eq!(SyncConfig::empty(), SyncConfig { src: None, dest: None });
}

#[test]
fn empty_file_config_sets_nothing() {
    let config = FileConfig::empty();
    assert_eq!(config.verbosity, None);
    assert_eq!(config.sync, SyncConfig { src: None, dest: None });
    assert_eq!(config.files.len(), 0);
}

#[test]
fn sync_config_clone_is_equal() {
    let config = SyncConfig { src: Some("s".to_string()), dest: None };
    assert_eq!(config.clone(), config);
}

#[test]
fn cli_config_clone_is_equal() {
    let config = CliConfig {
        command: SubCommand::SyncConfig(SyncConfig {
            src: Some("s".to_string()),
            dest: Some("d".to_string()),
        }),
        config: Some("c.toml".to_string()),
        path: None,
        verbosity: 3,
    };
    assert_eq!(config.clone(), config);
}

#[test]
fn file_config_clone_keeps_every_field() {
    let config = FileConfig {
        verbosity: Some(9),
        sync: SyncConfig { src: None, dest: Some("d".to_string()) },
        files: FileMap::new().with("a".to_string(), LinkSpec::Simple("b".to_string())),
    };
    let copy = config.clone();
    assert_eq!(copy.verbosity, Some(9));
    assert_eq!(copy.sync, SyncConfig { src: None, dest: Some("d".to_string()) });
    assert_eq!(copy.files.len(), 1);
    assert_eq!(copy.files.get("a"), Some(&LinkSpec::Simple("b".to_string())));
}
