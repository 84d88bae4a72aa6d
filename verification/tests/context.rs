use punter::config::{CliConfig, FileConfig, SubCommand, SyncConfig};
use punter::context::{resolve, Context, SyncOp};
use punter::error::SyncError;
use punter::links::{FileMap, LinkSpec};

fn text(s: &str) -> Option<String> {
    Some(s.to_string())
}

fn args(src: Option<&str>, dest: Option<&str>) -> SyncConfig {
    SyncConfig { src: src.map(|s| s.to_string()), dest: dest.map(|s| s.to_string()) }
}

fn cli(src: Option<&str>, dest: Option<&str>, path: Option<&str>) -> CliConfig {
    CliConfig {
        command: SubCommand::SyncConfig(args(src, dest)),
        config: None,
        path: path.map(|s| s.to_string()),
        verbosity: 0,
    }
}

fn op(src: &str, dest: &str) -> SyncOp {
    SyncOp { src: src.to_string(), dest: dest.to_string() }
}

#[test]
fn resolve_takes_what_is_given() {
    assert_eq!(resolve(&args(Some("s"), Some("d")), "base", text("/home/me")), Ok(op("s", "d")));
}

#[test]
fn resolve_source_defaults_to_the_base_directory() {
    assert_eq!(resolve(&args(None, Some("d")), "base", None), Ok(op("base", "d")));
    assert_eq!(resolve(&args(None, Some("d")), ".", None), Ok(op(".", "d")));
}

#[test]
fn resolve_destination_defaults_to_the_home_directory() {
    assert_eq!(resolve(&args(Some("s"), None), "base", text("/home/me")), Ok(op("s", "/home/me")));
}

#[test]
fn resolve_without_any_destination_fails() {
    assert_eq!(resolve(&args(Some("s"), None), "base", None), Err(SyncError::NoDestination));
    assert_eq!(resolve(&args(None, None), ".", None), Err(SyncError::NoDestination));
}

#[test]
fn validate_missing_source_fails_first() {
    assert_eq!(
        op("missing", "also-missing").validate(false, false),
        Err(SyncError::SourceNotADirectory("missing".to_string()))
    );
    assert_eq!(
        op("missing", "there").validate(false, true),
        Err(SyncError::SourceNotADirectory("missing".to_string()))
    );
}

#[test]
fn validate_missing_destination_fails() {
    assert_eq!(
        op("there", "missing").validate(true, false),
        Err(SyncError::DestinationNotADirectory("missing".to_string()))
    );
}

#[test]
fn validate_lets_two_directories_through() {
    assert_eq!(op("a", "b").validate(true, true), Ok(op("a", "b")));
}

#[test]
fn context_without_file_keeps_the_command_line() {
    let given = cli(Some("s"), None, Some("base"));
    let context = Context::new(given.clone(), None);
    assert_eq!(context.base, "base");
    assert_eq!(context.cli, given);
    assert_eq!(context.file.verbosity, None);
    assert_eq!(context.file.sync, args(None, None));
    assert_eq!(context.file.files.len(), 0);
}

#[test]
fn context_base_defaults_to_the_current_directory() {
    let context = Context::new(cli(None, None, None), None);
    assert_eq!(context.base, ".");
}

#[test]
fn context_merges_and_keeps_the_file() {
    let file = FileConfig {
        verbosity: Some(2),
        sync: args(Some("file-src"), Some("file-dest")),
        files: FileMap::new().with("a".to_string(), LinkSpec::Simple("b".to_string())),
    };
    let context = Context::new(cli(None, Some("cli-dest"), None), Some(file));
    assert_eq!(context.cli.command, SubCommand::SyncConfig(args(Some("file-src"), Some("cli-dest"))));
    assert_eq!(context.cli.verbosity, 2);
    assert_eq!(context.file.sync, args(Some("file-src"), Some("file-dest")));
    assert_eq!(context.file.files.get("a"), Some(&LinkSpec::Simple("b".to_string())));
}

#[test]
fn context_resolve_uses_merged_directories_and_base() {
    let context = Context::new(cli(None, None, Some("dots")), None);
    assert_eq!(context.resolve(text("/home/me")), Ok(op("dots", "/home/me")));
    assert_eq!(context.resolve(None), Err(SyncError::NoDestination));
    let context = Context::new(cli(Some("s"), Some("d"), Some("dots")), None);
    assert_eq!(context.resolve(text("/home/me")), Ok(op("s", "d")));
}

#[test]
fn sync_op_with_a_destination_does_not_depend_on_home() {
    let context = Context::new(cli(None, Some("d"), Some("dots")), None);
    assert_eq!(context.sync_op(), Ok(op("dots", "d")));
}

#[test]
fn sync_op_without_a_destination_is_home_or_nothing() {
    let context = Context::new(cli(Some("s"), None, None), None);
    match context.sync_op() {
        Ok(found) => assert_eq!(found.src, "s"),
        Err(error) => assert_eq!(error, SyncError::NoDestination),
    }
}
