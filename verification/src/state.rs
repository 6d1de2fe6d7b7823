use crate::platform::Platform;
use crate::preset::{ShortcutPreset, DEFAULT_SHORTCUT_PRESET_ID};
use vstd::prelude::*;

verus! {

/// The process id held while no frontmost application has been captured.
pub const NO_FRONTMOST_PID: i32 = -1;

/// The state that the command bar keeps for the life of the process: which
/// preset is bound, and which application was frontmost when the popup was
/// last opened.
#[derive(Debug)]
pub struct CommandBarShortcutState {
    platform: Platform,
    active_preset: ShortcutPreset,
    previous_frontmost_pid: i32,
}

/// A `CommandBarShortcutState` as a mathematical value.
pub struct CommandBarShortcutStateView {
    pub platform: Platform,
    pub active_preset: ShortcutPreset,
    pub previous_frontmost_pid: int,
}

impl View for CommandBarShortcutState {
    type V = CommandBarShortcutStateView;

    closed spec fn view(&self) -> CommandBarShortcutStateView {
        CommandBarShortcutStateView {
            platform: self.platform,
            active_preset: self.active_preset,
            previous_frontmost_pid: self.previous_frontmost_pid as int,
        }
    }
}

/// The state of a process that has just started on `platform`: the default
/// preset is active and no frontmost application has been captured.
pub open spec fn initial_state(platform: Platform) -> CommandBarShortcutStateView {
    CommandBarShortcutStateView {
        platform,
        active_preset: ShortcutPreset::CmdOrCtrlShiftK,
        previous_frontmost_pid: NO_FRONTMOST_PID as int,
    }
}

/// The view of a state that may be out of reach.
pub open spec fn viewed(state: Option<&CommandBarShortcutState>) -> Option<
    CommandBarShortcutStateView,
> {
    match state {
        Some(state) => Some(state@),
        None => None,
    }
}

impl CommandBarShortcutState {
    /// The state of a process that has just started on `platform`.
    pub fn new(platform: Platform) -> (state: CommandBarShortcutState)
        ensures
            state@ == initial_state(platform),
            state@.active_preset.spec_id() == DEFAULT_SHORTCUT_PRESET_ID@,
    {
        CommandBarShortcutState {
            platform,
            active_preset: ShortcutPreset::CmdOrCtrlShiftK,
            previous_frontmost_pid: NO_FRONTMOST_PID,
        }
    }

    /// The platform the process runs on.
    pub fn platform(&self) -> (platform: Platform)
        ensures
            platform == self@.platform,
    {
        self.platform
    }

    /// The preset whose chord is bound.
    pub fn active_preset(&self) -> (preset: ShortcutPreset)
        ensures
            preset == self@.active_preset,
    {
        self.active_preset
    }

    /// The process id of the application that was frontmost when the popup
    /// was last opened, or `NO_FRONTMOST_PID`.
    pub fn previous_frontmost_pid(&self) -> (pid: i32)
        ensures
            pid == self@.previous_frontmost_pid,
    {
        self.previous_frontmost_pid
    }

    /// Remembers `pid` as the application that was frontmost before the
    /// popup opened. What was remembered before is overwritten.
    pub fn record_frontmost(&mut self, pid: i32)
        ensures
            final(self)@ == (CommandBarShortcutStateView {
                previous_frontmost_pid: pid as int,
                ..old(self)@
            }),
    {
        self.previous_frontmost_pid = pid;
    }

    /// Makes `preset` the active one.
    pub(crate) fn activate(&mut self, preset: ShortcutPreset)
        ensures
            final(self)@ == (CommandBarShortcutStateView { active_preset: preset, ..old(self)@ }),
    {
        self.active_preset = preset;
    }
}

} // verus!
