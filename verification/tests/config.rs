use indexer_example::config::{Mode, RunConfiguration, SyncPolicy, SyncWaitPolicy};
use std::path::PathBuf;

#[test]
fn override_is_taken_as_home_directory() {
    let config = RunConfiguration::new(
        Mode::Run,
        Some(PathBuf::from("/data/node")),
        PathBuf::from("/home/user/.near"),
    );
    assert_eq!(config.home_directory(), &PathBuf::from("/data/node"));
}

#[test]
fn default_is_taken_without_an_override() {
    let config = RunConfiguration::new(Mode::Run, None, PathBuf::from("/home/user/.near"));
    assert_eq!(config.home_directory(), &PathBuf::from("/home/user/.near"));
}

#[test]
fn mode_is_kept() {
    let run = RunConfiguration::new(Mode::Run, None, PathBuf::from("a"));
    assert_eq!(run.mode(), Mode::Run);
    let init = RunConfiguration::new(Mode::Initialize, None, PathBuf::from("a"));
    assert_eq!(init.mode(), Mode::Initialize);
}

#[test]
fn engine_resumes_from_interruption_and_waits_for_full_sync() {
    for mode in [Mode::Run, Mode::Initialize] {
        let config = RunConfiguration::new(mode, Some(PathBuf::from("x")), PathBuf::from("y"));
        assert_eq!(config.sync_policy(), SyncPolicy::ResumeFromInterruption);
        assert_eq!(config.sync_wait_policy(), SyncWaitPolicy::WaitForFullSync);
    }
}

#[test]
fn empty_override_is_still_an_override() {
    let config = RunConfiguration::new(Mode::Initialize, Some(PathBuf::new()), PathBuf::from("y"));
    assert_eq!(config.home_directory(), &PathBuf::new());
}
