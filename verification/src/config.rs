//! The configuration that is fixed once at startup.

use std::path::PathBuf;
use vstd::prelude::*;

verus! {

/// `std::path::PathBuf`, declared so that a path can be carried through:
/// nothing is known of what a path holds, and nothing here looks inside one.
#[verifier::external_type_specification]
#[verifier::external_body]
pub struct ExPathBuf(PathBuf);

/// What the program was started to do.
#[derive(Clone, Copy, Debug, PartialEq, Eq)]
pub enum Mode {
    /// Write the default configuration into the home directory and exit.
    Initialize,
    /// Start the engine and consume its block stream.
    Run,
}

/// From which block the engine streams.
#[derive(Clone, Copy, Debug, PartialEq, Eq)]
pub enum SyncPolicy {
    /// From the block at which the last run was interrupted.
    ResumeFromInterruption,
    /// From the latest block once the node is synced.
    LatestSynced,
    /// From the block of the given height.
    FromBlockHeight(u64),
}

/// Whether the engine streams before the node has caught up.
#[derive(Clone, Copy, Debug, PartialEq, Eq)]
pub enum SyncWaitPolicy {
    /// Nothing is streamed until the node is fully synced.
    WaitForFullSync,
    /// Blocks are streamed while the node is still syncing.
    StreamWhileSyncing,
}

/// The mathematical content of a [`RunConfiguration`].
pub struct RunConfigurationView {
    pub mode: Mode,
    pub home_directory: PathBuf,
    pub sync_policy: SyncPolicy,
    pub sync_wait_policy: SyncWaitPolicy,
}

/// How the program runs. It is built once and offers no way to change it.
#[derive(Debug)]
pub struct RunConfiguration {
    mode: Mode,
    home_directory: PathBuf,
    sync_policy: SyncPolicy,
    sync_wait_policy: SyncWaitPolicy,
}

impl View for RunConfiguration {
    type V = RunConfigurationView;

    closed spec fn view(&self) -> RunConfigurationView {
        RunConfigurationView {
            mode: self.mode,
            home_directory: self.home_directory,
            sync_policy: self.sync_policy,
            sync_wait_policy: self.sync_wait_policy,
        }
    }
}

/// The home directory in use: the one given on the command line, or the
/// default where none was given.
pub open spec fn resolved_home(home_override: Option<PathBuf>, default_home: PathBuf) -> PathBuf {
    match home_override {
        Some(home) => home,
        None => default_home,
    }
}

impl RunConfiguration {
    /// Builds the configuration for `mode`. The home directory is the
    /// override where there is one, else the default; the engine resumes
    /// from the last interruption and waits for the node to be fully
    /// synced before it streams.
    pub fn new(mode: Mode, home_override: Option<PathBuf>, default_home: PathBuf) -> (config:
        RunConfiguration)
        ensures
            config@ == (RunConfigurationView {
                mode,
                home_directory: resolved_home(home_override, default_home),
                sync_policy: SyncPolicy::ResumeFromInterruption,
                sync_wait_policy: SyncWaitPolicy::WaitForFullSync,
            }),
    {
        let home_directory = match home_override {
            Some(home) => home,
            None => default_home,
        };
        RunConfiguration {
            mode,
            home_directory,
            sync_policy: SyncPolicy::ResumeFromInterruption,
            sync_wait_policy: SyncWaitPolicy::WaitForFullSync,
        }
    }

    /// What the program was started to do.
    pub fn mode(&self) -> (mode: Mode)
        ensures
            mode == self@.mode,
    {
        self.mode
    }

    /// The directory that holds the node's configuration and data.
    pub fn home_directory(&self) -> (home: &PathBuf)
        ensures
            *home == self@.home_directory,
    {
        &self.home_directory
    }

    /// From which block the engine streams.
    pub fn sync_policy(&self) -> (policy: SyncPolicy)
        ensures
            policy == self@.sync_policy,
    {
        self.sync_policy
    }

    /// Whether the engine streams before the node has caught up.
    pub fn sync_wait_policy(&self) -> (policy: SyncWaitPolicy)
        ensures
            policy == self@.sync_wait_policy,
    {
        self.sync_wait_policy
    }
}

} // verus!
