use mc_server_wrapper::backup::archive_file_name;
use mc_server_wrapper::backup::backup_paths;
use mc_server_wrapper::backup::combine_backup_failure;
use mc_server_wrapper::backup::fresh_archive_name;
use mc_server_wrapper::config::Config;
use mc_server_wrapper::errors::WrapperError;
use mc_server_wrapper::handoff::ShutdownHandoff;

#[test]
fn archive_name_is_filesystem_safe() {
    assert_eq!(
        archive_file_name("2022-01-01 00:00:00 UTC"),
        "2022-01-01_00-00-00_UTC.tar.gz"
    );
}

#[test]
fn archive_name_keeps_safe_characters() {
    assert_eq!(archive_file_name("snapshot"), "snapshot.tar.gz");
    assert_eq!(archive_file_name(""), ".tar.gz");
}

#[test]
fn fresh_archive_name_has_the_archive_suffix() {
    let name = fresh_archive_name();
    assert!(name.ends_with(".tar.gz"));
    assert!(!name.contains(' '));
    assert!(!name.contains(':'));
}

#[test]
fn backup_paths_lie_next_to_the_jar() {
    let (archive, world) = backup_paths("/srv/mc/server.jar", "b.tar.gz").unwrap();
    assert_eq!(archive, "/srv/mc/b.tar.gz");
    assert_eq!(world, "/srv/mc/world");
}

#[test]
fn backup_paths_for_bare_jar_name_use_the_working_directory() {
    let (archive, world) = backup_paths("server.jar", "b.tar.gz").unwrap();
    assert_eq!(archive, "b.tar.gz");
    assert_eq!(world, "world");
}

#[test]
fn backup_paths_reject_paths_without_a_parent() {
    assert_eq!(backup_paths("", "b.tar.gz"), None);
    assert_eq!(backup_paths("/", "b.tar.gz"), None);
}

#[test]
fn combined_failure_message_carries_both_descriptions() {
    let backup_msg = "could not create the tarball";
    let restart_msg = "spawning a replacement failed";
    let combined = combine_backup_failure(backup_msg, restart_msg);
    assert!(combined.contains(backup_msg));
    assert!(combined.contains(restart_msg));
}

#[test]
fn default_config_values() {
    let c = Config::default();
    assert_eq!(c.port, 6969);
    assert_eq!(c.server_jar_path, "server.jar");
    assert_eq!(c.max_memory_buffer_size, 2048);
}

#[test]
fn shutdown_handoff_fires_exactly_once() {
    let mut h = ShutdownHandoff::new();
    assert!(h.acquire());
    assert!(!h.acquire());
    assert!(!h.acquire());
}

#[test]
fn error_messages_name_each_failure() {
    assert_eq!(
        WrapperError::ExitFailure(Some(1)).message(),
        "the server process exited with status code 1"
    );
    assert_eq!(
        WrapperError::ExitFailure(Some(-9)).message(),
        "the server process exited with status code -9"
    );
    assert_eq!(
        WrapperError::ExitFailure(None).message(),
        "the server process was terminated forcefully by a signal"
    );
    assert_eq!(
        WrapperError::BrokenPipe.message(),
        "the stdout channel was closed unexpectedly"
    );
    assert_ne!(
        WrapperError::SpawnFailed.message(),
        WrapperError::RestartFailed.message()
    );
    assert_ne!(
        WrapperError::IoFailure.message(),
        WrapperError::ProtocolViolation.message()
    );
}
