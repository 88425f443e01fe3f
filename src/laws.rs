//! What holds of every run of the control state machine.

use vstd::prelude::*;
use crate::config::WatchConfig;
use crate::control::{
    destination_path, startup_copy, transition, watch_request, Action, Controller, Input, Phase,
};
use crate::event::{changed_path, lemma_empty_filter_passes_all, passes_filter, FileSystemEvent};

verus! {

/// A removal, an attribute change, a rename or any other notification never
/// leads to a copy, whatever the phase.
pub proof fn lemma_only_changes_are_copied(
    before: Controller,
    e: FileSystemEvent,
    after: Controller,
    act: Action,
)
    requires
        transition(before, Input::Notification(e), after, act),
        e is Removed || e is AttributesChanged || e is Renamed || e is Other,
    ensures
        !(act is CopyFile),
{
}

/// While watching, a creation or modification whose file name passes the
/// extension filter is copied from its own path to the destination file.
pub proof fn lemma_accepted_change_is_copied_to_target(
    before: Controller,
    e: FileSystemEvent,
    after: Controller,
    act: Action,
)
    requires
        before.wf(),
        before.spec_phase() == Phase::Watching,
        transition(before, Input::Notification(e), after, act),
        changed_path(e) is Some,
        passes_filter(changed_path(e)->0, before.spec_config()->0.extension_filter@),
    ensures
        after.spec_phase() == Phase::Copying,
        act matches Action::CopyFile { from, to } && from@ == changed_path(e)->0 && to@
            == destination_path(before.spec_config()->0),
{
}

/// While watching with an empty extension filter, every creation and
/// modification is copied to the destination file.
pub proof fn lemma_empty_filter_copies_every_change(
    before: Controller,
    e: FileSystemEvent,
    after: Controller,
    act: Action,
)
    requires
        before.wf(),
        before.spec_phase() == Phase::Watching,
        before.spec_config()->0.extension_filter@.len() == 0,
        e is Created || e is Modified,
        transition(before, Input::Notification(e), after, act),
    ensures
        act matches Action::CopyFile { from, to } && from@ == changed_path(e)->0 && to@
            == destination_path(before.spec_config()->0),
{
    lemma_empty_filter_passes_all(changed_path(e)->0, before.spec_config()->0.extension_filter@);
}

/// Once a configuration is loaded, a configured start-up copy (from the
/// destination folder into the source folder) comes first, and the step after
/// it neither watches nor copies a changed file; with no start-up copy
/// configured, the watch is requested at once and nothing fails.
pub proof fn lemma_startup_copy_precedes_watch(
    before: Controller,
    c: WatchConfig,
    after: Controller,
    act: Action,
    next: Input,
    later: Controller,
    next_act: Action,
)
    requires
        before.spec_phase() == Phase::Uninitialized,
        transition(before, Input::ConfigParsed(c), after, act),
        transition(after, next, later, next_act),
    ensures
        c.startup_copy_file@.len() > 0 ==> {
            &&& startup_copy(c, act)
            &&& after.spec_phase() == Phase::StartupSync
            &&& later.spec_phase() != Phase::Watching
            &&& !(next_act is CopyFile)
        },
        c.startup_copy_file@.len() == 0 ==> {
            &&& watch_request(c, act)
            &&& after.spec_phase() == Phase::ConfigLoaded
        },
{
}

/// Once stopped, the process stays stopped and does nothing more.
pub proof fn lemma_stopped_is_final(
    before: Controller,
    input: Input,
    after: Controller,
    act: Action,
)
    requires
        before.spec_phase() == Phase::Stopped,
        transition(before, input, after, act),
    ensures
        after.spec_phase() == Phase::Stopped,
        act is Abort,
{
}

/// Without a stored configuration the process runs the first-time setup and
/// stops: it never registers a watch nor copies anything afterwards.
pub proof fn lemma_absent_config_only_sets_up(
    before: Controller,
    after: Controller,
    act: Action,
    next: Input,
    later: Controller,
    next_act: Action,
)
    requires
        before.spec_phase() == Phase::Uninitialized,
        transition(before, Input::ConfigAbsent, after, act),
        transition(after, next, later, next_act),
    ensures
        act is RunFirstTimeSetup,
        after.spec_phase() == Phase::Stopped,
        later.spec_phase() == Phase::Stopped,
        !(next_act is RegisterWatch),
        !(next_act is CopyFile),
{
    lemma_stopped_is_final(after, next, later, next_act);
}

} // verus!
