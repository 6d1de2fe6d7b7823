use crate::chord::KeyChord;
use crate::error::{outcome, ShortcutError, ShortcutFailure};
use crate::platform::Platform;
use crate::preset::{shortcut_for_preset, spec_shortcut_for_preset, ShortcutPreset};
use crate::state::{viewed, CommandBarShortcutState, CommandBarShortcutStateView};
use crate::text::{trim, trimmed};
use vstd::prelude::*;

verus! {

/// What the host has to do to make a requested preset the active one.
#[derive(Clone, Copy, Debug, PartialEq, Eq, Structural)]
pub enum PresetChange {
    /// The requested preset is the active one already. No chord is to be
    /// released or bound.
    Unchanged,
    /// Release `release`, ignoring a failure; then bind `bind`; then report
    /// how the binding went, together with `preset`, to
    /// `commit_preset_change`.
    Rebind { release: KeyChord, bind: KeyChord, preset: ShortcutPreset },
}

/// The chord to bind for the preset that `preset_id` names.
pub open spec fn spec_register_shortcut_preset(platform: Platform, preset_id: Seq<char>) -> Result<
    KeyChord,
    ShortcutFailure,
> {
    match spec_shortcut_for_preset(platform, preset_id) {
        Some(chord) => Ok(chord),
        None => Err(ShortcutFailure::UnsupportedPreset { preset: preset_id }),
    }
}

/// The operating system's answer to a request to bind a chord, as a
/// mathematical value: `None` if the chord was bound, and the reason given
/// if it was refused.
pub open spec fn refusal(registered: Result<(), String>) -> Option<Seq<char>> {
    match registered {
        Ok(_) => None,
        Err(reason) => Some(reason@),
    }
}

/// How an attempt to bind the chord of `preset_id` ended, given the
/// operating system's answer.
pub open spec fn spec_registration_outcome(preset_id: Seq<char>, refusal: Option<Seq<char>>) -> Result<
    (),
    ShortcutFailure,
> {
    match refusal {
        None => Ok(()),
        Some(reason) => Err(ShortcutFailure::RegistrationFailed { preset: preset_id, reason }),
    }
}

/// What a request for the preset named `next_preset` leads to. An unknown
/// identifier is turned down before the state is looked at; a state that
/// is out of reach (`None`) is the next thing to fail; and a request for
/// the active preset changes nothing.
pub open spec fn spec_plan_preset_change(
    state: Option<CommandBarShortcutStateView>,
    next_preset: Seq<char>,
) -> Result<PresetChange, ShortcutFailure> {
    match ShortcutPreset::spec_from_id(next_preset) {
        None => Err(ShortcutFailure::UnsupportedPreset { preset: next_preset }),
        Some(next) => match state {
            None => Err(ShortcutFailure::StateLockFailed),
            Some(state) => if state.active_preset == next {
                Ok(PresetChange::Unchanged)
            } else {
                Ok(
                    PresetChange::Rebind {
                        release: state.active_preset.spec_chord(state.platform),
                        bind: next.spec_chord(state.platform),
                        preset: next,
                    },
                )
            },
        },
    }
}

/// How a change of preset ends once the operating system has answered the
/// request to bind the new chord. A refused binding fails the change
/// whatever the state; else a state that is out of reach fails it.
pub open spec fn spec_commit_outcome(
    reachable: bool,
    preset: ShortcutPreset,
    refusal: Option<Seq<char>>,
) -> Result<(), ShortcutFailure> {
    match refusal {
        Some(reason) => Err(ShortcutFailure::RebindFailed { preset: preset.spec_id(), reason }),
        None => if reachable {
            Ok(())
        } else {
            Err(ShortcutFailure::StateLockFailed)
        },
    }
}

/// The state after a change of preset has ended: `preset` is active if the
/// binding succeeded, and nothing has changed if it did not.
pub open spec fn spec_committed_state(
    state: CommandBarShortcutStateView,
    preset: ShortcutPreset,
    refusal: Option<Seq<char>>,
) -> CommandBarShortcutStateView {
    if refusal is None {
        CommandBarShortcutStateView { active_preset: preset, ..state }
    } else {
        state
    }
}

/// The state after the request for `preset_id` has been carried through in
/// `state`: planned, and, where a chord had to be bound, committed with
/// the operating system's answer.
pub open spec fn spec_state_after_request(
    state: CommandBarShortcutStateView,
    preset_id: Seq<char>,
    refusal: Option<Seq<char>>,
) -> CommandBarShortcutStateView {
    match spec_plan_preset_change(Some(state), trimmed(preset_id)) {
        Ok(PresetChange::Rebind { preset, .. }) => spec_committed_state(state, preset, refusal),
        _ => state,
    }
}

/// Resolves the chord that the host is to bind for `preset_id`, as it does
/// at startup for the default preset.
pub fn register_shortcut_preset(platform: Platform, preset_id: &str) -> (request: Result<
    KeyChord,
    ShortcutError,
>)
    ensures
        outcome(request) == spec_register_shortcut_preset(platform, preset_id@),
{
    match shortcut_for_preset(platform, preset_id) {
        Some(chord) => Ok(chord),
        None => Err(ShortcutError::UnsupportedPreset { preset: preset_id.to_owned() }),
    }
}

/// Turns the operating system's answer to a binding request into the
/// result of registering `preset_id`.
pub fn registration_outcome(preset_id: &str, registered: Result<(), String>) -> (result: Result<
    (),
    ShortcutError,
>)
    ensures
        outcome(result) == spec_registration_outcome(preset_id@, refusal(registered)),
{
    match registered {
        Ok(_) => Ok(()),
        Err(reason) => Err(
            ShortcutError::RegistrationFailed { preset: preset_id.to_owned(), reason },
        ),
    }
}

/// Decides what a request for the preset named `next_preset` leads to.
/// `state` is `None` when the lock that guards it could not be taken.
pub fn plan_preset_change(state: Option<&CommandBarShortcutState>, next_preset: &str) -> (plan:
    Result<PresetChange, ShortcutError>)
    ensures
        outcome(plan) == spec_plan_preset_change(viewed(state), next_preset@),
{
    let next = match ShortcutPreset::from_id(next_preset) {
        Some(next) => next,
        None => {
            return Err(ShortcutError::UnsupportedPreset { preset: next_preset.to_owned() });
        },
    };
    let state = match state {
        Some(state) => state,
        None => {
            return Err(ShortcutError::StateLockFailed);
        },
    };
    let active = state.active_preset();
    if active == next {
        Ok(PresetChange::Unchanged)
    } else {
        let platform = state.platform();
        Ok(
            PresetChange::Rebind {
                release: active.chord(platform),
                bind: next.chord(platform),
                preset: next,
            },
        )
    }
}

/// The command behind the frontend's choice of a preset: decides what the
/// request leads to, blanks around the identifier set aside.
pub fn set_command_bar_shortcut_preset(
    state: Option<&CommandBarShortcutState>,
    preset_id: &str,
) -> (plan: Result<PresetChange, ShortcutError>)
    ensures
        outcome(plan) == spec_plan_preset_change(viewed(state), trimmed(preset_id@)),
{
    plan_preset_change(state, trim(preset_id))
}

/// Ends a change of preset that `set_command_bar_shortcut_preset` planned
/// as a `Rebind`. `registered` is the operating system's answer to binding
/// the new chord, and `state` is `None` when the lock that guards it could
/// not be taken. The new preset becomes the active one only if the binding
/// succeeded.
pub fn commit_preset_change(
    state: Option<&mut CommandBarShortcutState>,
    preset: ShortcutPreset,
    registered: Result<(), String>,
) -> (result: Result<(), ShortcutError>)
    ensures
        outcome(result) == spec_commit_outcome(state is Some, preset, refusal(registered)),
        state matches Some(held) ==> final(held)@ == spec_committed_state(
            held@,
            preset,
            refusal(registered),
        ),
{
    match registered {
        Err(reason) => Err(ShortcutError::RebindFailed { preset: preset.id().to_owned(), reason }),
        Ok(_) => match state {
            Some(state) => {
                state.activate(preset);
                Ok(())
            },
            None => Err(ShortcutError::StateLockFailed),
        },
    }
}

} // verus!
