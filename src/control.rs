//! The control object of a mirroring process: a state machine from what the
//! process observed to what it should do next.
//!
//! The caller performs each action (reading the configuration, copying a
//! file, registering the watch, waiting for the next notification) and hands
//! the outcome back as the next input.

use vstd::prelude::*;
use crate::config::WatchConfig;
use crate::event::{
    changed_path, classify, copy_source, Classification, FileSystemEvent, Rejection,
};
use crate::paths::{join_path, joined};

verus! {

/// Where the process stands.
#[derive(PartialEq, Eq, Structural, Clone, Copy, Debug)]
pub enum Phase {
    /// No configuration has been read yet.
    Uninitialized,
    /// The start-up copy from the destination folder is in progress.
    StartupSync,
    /// The configuration is loaded and the watch is being registered.
    ConfigLoaded,
    /// Waiting for the next change notification.
    Watching,
    /// A copy triggered by a notification is in progress.
    Copying,
    /// The process ends; nothing more is done.
    Stopped,
}

/// What the caller observed.
pub enum Input {
    /// There is no stored configuration.
    ConfigAbsent,
    /// The stored configuration could not be parsed.
    ConfigMalformed,
    /// The stored configuration.
    ConfigParsed(WatchConfig),
    /// The requested copy has ended; whether it succeeded.
    CopyFinished(bool),
    /// The watch on the source folder is in place.
    WatchRegistered,
    /// The watch could not be set up.
    WatchFailed,
    /// One coalesced change notification.
    Notification(FileSystemEvent),
    /// Waiting for a notification failed.
    ReceiveFailed,
}

/// What the caller should do next.
pub enum Action {
    /// Ask for a configuration, store it, and end the process.
    RunFirstTimeSetup,
    /// End the process with a diagnostic.
    Abort,
    /// Copy the file at `from` to `to`, overwriting it, and report the outcome.
    CopyFile { from: String, to: String },
    /// Watch `folder` recursively and report whether that worked.
    RegisterWatch { folder: String },
    /// Wait for the next change notification.
    AwaitEvent,
    /// Drop the notification, for the reason given, and wait for the next.
    Skip(Rejection),
}

/// The file that every accepted change is copied to.
pub open spec fn destination_path(c: WatchConfig) -> Seq<char> {
    joined(c.destination_folder@, c.target_file_name@)
}

/// The start-up copy: from the destination folder into the source folder,
/// under the same name.
pub open spec fn startup_copy(c: WatchConfig, act: Action) -> bool {
    act matches Action::CopyFile { from, to } && from@ == joined(
        c.destination_folder@,
        c.startup_copy_file@,
    ) && to@ == joined(c.source_folder@, c.startup_copy_file@)
}

/// The request to watch the source folder.
pub open spec fn watch_request(c: WatchConfig, act: Action) -> bool {
    act matches Action::RegisterWatch { folder } && folder@ == c.source_folder@
}

/// What follows a freshly loaded configuration: the start-up copy when one is
/// configured, else the watch registration.
pub open spec fn begins(c: WatchConfig, phase: Phase, act: Action) -> bool {
    if c.startup_copy_file@.len() > 0 {
        phase == Phase::StartupSync && startup_copy(c, act)
    } else {
        phase == Phase::ConfigLoaded && watch_request(c, act)
    }
}

/// What follows notification `e` while watching under configuration `c`.
pub open spec fn handles(c: WatchConfig, e: FileSystemEvent, phase: Phase, act: Action) -> bool {
    match copy_source(e, c.extension_filter@) {
        Some(p) => phase == Phase::Copying && (act matches Action::CopyFile { from, to } && from@
            == p && to@ == destination_path(c)),
        None => phase == Phase::Watching && act == Action::Skip(
            if changed_path(e) is None {
                Rejection::ByKind
            } else {
                Rejection::ByExtension
            },
        ),
    }
}

/// The control object: the phase and, once loaded, the configuration.
pub struct Controller {
    phase: Phase,
    config: Option<WatchConfig>,
}

impl Controller {
    /// The phase the process is in.
    pub closed spec fn spec_phase(&self) -> Phase {
        self.phase
    }

    /// The configuration, once loaded.
    pub closed spec fn spec_config(&self) -> Option<WatchConfig> {
        self.config
    }

    /// A configuration is held exactly from loading on; it is held in every
    /// phase between loading and stopping.
    pub open spec fn wf(&self) -> bool {
        &&& self.spec_phase() == Phase::Uninitialized ==> self.spec_config() is None
        &&& (self.spec_phase() != Phase::Uninitialized && self.spec_phase() != Phase::Stopped)
            ==> self.spec_config() is Some
    }

    /// A process that has read nothing yet.
    pub fn new() -> (r: Controller)
        ensures
            r.wf(),
            r.spec_phase() == Phase::Uninitialized,
    {
        Controller { phase: Phase::Uninitialized, config: None }
    }

    /// The phase the process is in.
    pub fn phase(&self) -> (r: Phase)
        ensures
            r == self.spec_phase(),
    {
        self.phase
    }
}

/// The process ends: `after` is stopped and the action aborts.
pub open spec fn stops(after: Controller, act: Action) -> bool {
    after.spec_phase() == Phase::Stopped && act is Abort
}

/// One step of the process: in state `before`, on `input`, the process moves
/// to `after` and asks for `act`. The configuration never changes once
/// loaded; an input that the phase does not expect stops the process.
pub open spec fn transition(before: Controller, input: Input, after: Controller, act: Action) -> bool {
    let c = before.spec_config()->0;
    let kept = after.spec_config() == before.spec_config();
    match before.spec_phase() {
        Phase::Uninitialized => match input {
            Input::ConfigAbsent => kept && after.spec_phase() == Phase::Stopped
                && act is RunFirstTimeSetup,
            Input::ConfigParsed(loaded) => after.spec_config() == Some(loaded) && begins(
                loaded,
                after.spec_phase(),
                act,
            ),
            _ => kept && stops(after, act),
        },
        Phase::StartupSync => kept && match input {
            Input::CopyFinished(_) => after.spec_phase() == Phase::ConfigLoaded && watch_request(
                c,
                act,
            ),
            _ => stops(after, act),
        },
        Phase::ConfigLoaded => kept && match input {
            Input::WatchRegistered => after.spec_phase() == Phase::Watching && act is AwaitEvent,
            _ => stops(after, act),
        },
        Phase::Watching => kept && match input {
            Input::Notification(e) => handles(c, e, after.spec_phase(), act),
            Input::ReceiveFailed => after.spec_phase() == Phase::Watching && act is AwaitEvent,
            _ => stops(after, act),
        },
        Phase::Copying => kept && match input {
            Input::CopyFinished(_) => after.spec_phase() == Phase::Watching && act is AwaitEvent,
            _ => stops(after, act),
        },
        Phase::Stopped => kept && stops(after, act),
    }
}

impl Controller {
    /// Stops the process.
    fn abort(&mut self) -> (act: Action)
        ensures
            final(self).spec_config() == old(self).spec_config(),
            stops(*final(self), act),
    {
        self.phase = Phase::Stopped;
        Action::Abort
    }

    /// Advances the process by one observed `input` and returns what to do
    /// next.
    pub fn step(&mut self, input: Input) -> (act: Action)
        requires
            old(self).wf(),
        ensures
            final(self).wf(),
            transition(*old(self), input, *final(self), act),
    {
        match self.phase {
            Phase::Uninitialized => match input {
                Input::ConfigAbsent => {
                    self.phase = Phase::Stopped;
                    Action::RunFirstTimeSetup
                },
                Input::ConfigParsed(loaded) => {
                    let act = if loaded.startup_copy_file.unicode_len() > 0 {
                        self.phase = Phase::StartupSync;
                        Action::CopyFile {
                            from: join_path(
                                loaded.destination_folder.as_str(),
                                loaded.startup_copy_file.as_str(),
                            ),
                            to: join_path(
                                loaded.source_folder.as_str(),
                                loaded.startup_copy_file.as_str(),
                            ),
                        }
                    } else {
                        self.phase = Phase::ConfigLoaded;
                        Action::RegisterWatch { folder: loaded.source_folder.clone() }
                    };
                    self.config = Some(loaded);
                    act
                },
                _ => self.abort(),
            },
            Phase::StartupSync => match input {
                Input::CopyFinished(_) => {
                    let folder = match &self.config {
                        Some(c) => c.source_folder.clone(),
                        None => {
                            return self.abort();
                        },
                    };
                    self.phase = Phase::ConfigLoaded;
                    Action::RegisterWatch { folder }
                },
                _ => self.abort(),
            },
            Phase::ConfigLoaded => match input {
                Input::WatchRegistered => {
                    self.phase = Phase::Watching;
                    Action::AwaitEvent
                },
                _ => self.abort(),
            },
            Phase::Watching => match input {
                Input::Notification(e) => {
                    let act = match &self.config {
                        Some(c) => match classify(&e, c.extension_filter.as_str()) {
                            Classification::Accept(from) => Action::CopyFile {
                                from,
                                to: join_path(
                                    c.destination_folder.as_str(),
                                    c.target_file_name.as_str(),
                                ),
                            },
                            Classification::Reject(why) => Action::Skip(why),
                        },
                        None => {
                            return self.abort();
                        },
                    };
                    if let Action::CopyFile { .. } = act {
                        self.phase = Phase::Copying;
                    }
                    act
                },
                Input::ReceiveFailed => Action::AwaitEvent,
                _ => self.abort(),
            },
            Phase::Copying => match input {
                Input::CopyFinished(_) => {
                    self.phase = Phase::Watching;
                    Action::AwaitEvent
                },
                _ => self.abort(),
            },
            Phase::Stopped => self.abort(),
        }
    }
}

} // verus!
