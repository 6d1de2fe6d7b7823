use crate::chord::{KeyChord, KeyCode, ModifierSet};
use crate::error::ShortcutFailure;
use crate::platform::Platform;
use crate::preset::{spec_shortcut_for_preset, ShortcutPreset};
use crate::registry::{spec_plan_preset_change, spec_state_after_request, PresetChange};
use crate::state::{CommandBarShortcutStateView, NO_FRONTMOST_PID};
use crate::text::trimmed;
use crate::window::{
    best_effort, phase_after_all, restores_frontmost, spec_create_command_bar_window,
    spec_dismiss_command_bar, spec_focus_changed, spec_toggle_command_bar_window, WindowAction,
    WindowPhase, WindowStep,
};
use vstd::prelude::*;

verus! {

/// No two presets share an identifier.
pub proof fn preset_ids_are_distinct()
    ensures
        ShortcutPreset::CmdOrCtrlShiftK.spec_id() != ShortcutPreset::CtrlSpace.spec_id(),
        ShortcutPreset::CmdOrCtrlShiftK.spec_id() != ShortcutPreset::AltSpace.spec_id(),
        ShortcutPreset::CtrlSpace.spec_id() != ShortcutPreset::AltSpace.spec_id(),
{
    reveal_strlit("cmd_or_ctrl_shift_k");
    reveal_strlit("ctrl_space");
    reveal_strlit("alt_space");
    assert("cmd_or_ctrl_shift_k"@.len() == 19);
    assert("ctrl_space"@.len() == 10);
    assert("alt_space"@.len() == 9);
}

/// Every preset is found under its own identifier, and resolves there to
/// its chord on the platform asked about. The chord of the default preset
/// is built on the platform's primary modifier: Command on macOS, Control
/// elsewhere.
pub proof fn every_preset_resolves(platform: Platform, preset: ShortcutPreset)
    ensures
        ShortcutPreset::spec_from_id(preset.spec_id()) == Some(preset),
        spec_shortcut_for_preset(platform, preset.spec_id()) == Some(preset.spec_chord(platform)),
        preset == ShortcutPreset::CmdOrCtrlShiftK ==> preset.spec_chord(platform) == (KeyChord {
            modifiers: ModifierSet {
                alt: false,
                control: platform == Platform::Other,
                shift: true,
                super_key: platform == Platform::MacOs,
            },
            key: KeyCode::KeyK,
        }),
        preset == ShortcutPreset::CtrlSpace ==> preset.spec_chord(platform) == (KeyChord {
            modifiers: ModifierSet { alt: false, control: true, shift: false, super_key: false },
            key: KeyCode::Space,
        }),
        preset == ShortcutPreset::AltSpace ==> preset.spec_chord(platform) == (KeyChord {
            modifiers: ModifierSet { alt: true, control: false, shift: false, super_key: false },
            key: KeyCode::Space,
        }),
{
    preset_ids_are_distinct();
}

/// Nothing but the identifier of a preset resolves: a string resolves to a
/// chord if and only if it is, character for character, the identifier of
/// one of the presets.
pub proof fn only_preset_ids_resolve(platform: Platform, id: Seq<char>)
    ensures
        spec_shortcut_for_preset(platform, id) is Some <==> (exists|preset: ShortcutPreset|
            id == #[trigger] preset.spec_id()),
        spec_shortcut_for_preset(platform, id) is None <==> ShortcutPreset::spec_from_id(id) is None,
{
    if spec_shortcut_for_preset(platform, id) is Some {
        let preset = ShortcutPreset::spec_from_id(id)->Some_0;
        assert(id == preset.spec_id());
    }
    if exists|preset: ShortcutPreset| id == #[trigger] preset.spec_id() {
        let preset = choose|preset: ShortcutPreset| id == #[trigger] preset.spec_id();
        every_preset_resolves(platform, preset);
    }
}

/// What a request leaves behind. Where it went through, the preset it
/// named is the active one; where the identifier was unknown or the
/// operating system refused the chord, the preset that was active still
/// is. Nothing else in the state changes either way.
pub proof fn request_settles_the_active_preset(
    state: CommandBarShortcutStateView,
    preset_id: Seq<char>,
    refusal: Option<Seq<char>>,
)
    ensures
        ({
            let plan = spec_plan_preset_change(Some(state), trimmed(preset_id));
            let after = spec_state_after_request(state, preset_id, refusal);
            &&& plan is Ok && refusal is None ==> after.active_preset.spec_id() == trimmed(
                preset_id,
            )
            &&& plan is Err || refusal is Some ==> after.active_preset == state.active_preset
            &&& after.platform == state.platform
            &&& after.previous_frontmost_pid == state.previous_frontmost_pid
        }),
{
}

/// Asking for the same preset twice: unless the operating system refused
/// to bind the chord the first time, the second request releases and
/// binds nothing. Where the first request went through, the second finds
/// the preset active.
pub proof fn repeated_request_changes_nothing(
    state: CommandBarShortcutStateView,
    preset_id: Seq<char>,
    refusal: Option<Seq<char>>,
)
    requires
        spec_plan_preset_change(Some(state), trimmed(preset_id)) matches Ok(
            PresetChange::Rebind { .. },
        ) ==> refusal is None,
    ensures
        ({
            let first = spec_plan_preset_change(Some(state), trimmed(preset_id));
            let second = spec_plan_preset_change(
                Some(spec_state_after_request(state, preset_id, refusal)),
                trimmed(preset_id),
            );
            &&& first is Ok ==> second == Ok::<PresetChange, ShortcutFailure>(
                PresetChange::Unchanged,
            )
            &&& first is Err ==> second == first
        }),
{
}

/// A request for an identifier that names no preset is turned down as
/// unsupported, whether or not the state can be reached, before any chord
/// is released or bound, and the state stays as it was: the preset that
/// was active still is.
pub proof fn unknown_preset_is_turned_down(
    state: Option<CommandBarShortcutStateView>,
    preset_id: Seq<char>,
    refusal: Option<Seq<char>>,
)
    requires
        ShortcutPreset::spec_from_id(trimmed(preset_id)) is None,
    ensures
        spec_plan_preset_change(state, trimmed(preset_id)) == Err::<PresetChange, ShortcutFailure>(
            ShortcutFailure::UnsupportedPreset { preset: trimmed(preset_id) },
        ),
        state matches Some(reached) ==> spec_state_after_request(reached, preset_id, refusal)
            == reached,
{
}

/// Toggling turns a hidden window into a shown one and a shown one into a
/// hidden one, so toggling twice leaves the window as it was found.
pub proof fn toggling_twice_restores_the_phase(phase: WindowPhase, platform: Platform)
    ensures
        ({
            let once = phase_after_all(phase, spec_toggle_command_bar_window(phase, platform));
            let twice = phase_after_all(once, spec_toggle_command_bar_window(once, platform));
            &&& phase == WindowPhase::Hidden ==> once == WindowPhase::Visible
            &&& phase == WindowPhase::Visible ==> once == WindowPhase::Hidden
            &&& phase == WindowPhase::Uncreated ==> once == WindowPhase::Uncreated
            &&& twice == phase
        }),
{
    lemma_toggled_phase(WindowPhase::Uncreated, platform);
    lemma_toggled_phase(WindowPhase::Hidden, platform);
    lemma_toggled_phase(WindowPhase::Visible, platform);
}

/// The phase that one toggle leads to.
proof fn lemma_toggled_phase(phase: WindowPhase, platform: Platform)
    ensures
        phase_after_all(phase, spec_toggle_command_bar_window(phase, platform)) == match phase {
            WindowPhase::Uncreated => WindowPhase::Uncreated,
            WindowPhase::Hidden => WindowPhase::Visible,
            WindowPhase::Visible => WindowPhase::Hidden,
        },
{
    let steps = spec_toggle_command_bar_window(phase, platform);
    reveal_with_fuel(phase_after_all, 5);
    if steps.len() == 4 {
        assert(steps.drop_last().drop_last().drop_last().drop_last().len() == 0);
    } else if steps.len() == 3 {
        assert(steps.drop_last().drop_last().drop_last().len() == 0);
    } else if steps.len() == 1 {
        assert(steps.drop_last().len() == 0);
    }
}

/// A window that is shown and loses the focus ends up hidden, with no
/// toggle and no dismissal asked for; one that was hidden stays so.
pub proof fn losing_focus_hides_the_window(phase: WindowPhase)
    requires
        phase.is_created(),
    ensures
        spec_focus_changed(false) == seq![best_effort(WindowAction::Hide)],
        phase_after_all(phase, spec_focus_changed(false)) == WindowPhase::Hidden,
{
    let steps = spec_focus_changed(false);
    reveal_with_fuel(phase_after_all, 2);
    assert(steps.drop_last().len() == 0);
}

/// Making sure twice that the window exists builds it once: after the
/// first time it exists, hidden, and the second time finds nothing to do.
pub proof fn creating_twice_builds_once(phase: WindowPhase)
    ensures
        ({
            let once = phase_after_all(
                phase,
                spec_create_command_bar_window(phase.is_created()),
            );
            &&& once.is_created()
            &&& phase == WindowPhase::Uncreated ==> once == WindowPhase::Hidden
            &&& phase.is_created() ==> once == phase
            &&& spec_create_command_bar_window(once.is_created()) == Seq::<
                WindowStep,
            >::empty()
        }),
{
    let steps = spec_create_command_bar_window(phase.is_created());
    reveal_with_fuel(phase_after_all, 2);
    if steps.len() == 1 {
        assert(steps.drop_last().len() == 0);
    }
}

/// What dismissal comes to when the focus is not handed to another
/// application: the window, if there is one, is hidden, and the
/// application as a whole is never hidden.
proof fn lemma_plain_dismissal(
    state: Option<CommandBarShortcutStateView>,
    own_pid: int,
    phase: WindowPhase,
)
    requires
        !restores_frontmost(state, own_pid),
    ensures
        ({
            let steps = spec_dismiss_command_bar(state, own_pid, phase.is_created());
            &&& steps == if phase.is_created() {
                seq![best_effort(WindowAction::Hide)]
            } else {
                Seq::<WindowStep>::empty()
            }
            &&& forall|i: int|
                0 <= i < steps.len() ==> (#[trigger] steps[i]).action
                    != WindowAction::HideApplication
            &&& phase.is_created() ==> phase_after_all(phase, steps) == WindowPhase::Hidden
        }),
{
    let steps = spec_dismiss_command_bar(state, own_pid, phase.is_created());
    if phase.is_created() {
        assert(steps =~= seq![best_effort(WindowAction::Hide)]);
        reveal_with_fuel(phase_after_all, 2);
        assert(steps.drop_last().len() == 0);
    } else {
        assert(steps =~= Seq::<WindowStep>::empty());
    }
}

/// Dismissing the popup when no frontmost application was ever captured
/// hides the window and leaves the application as a whole alone.
pub proof fn dismissal_without_capture_only_hides(
    state: CommandBarShortcutStateView,
    own_pid: int,
    phase: WindowPhase,
)
    requires
        state.previous_frontmost_pid == NO_FRONTMOST_PID,
    ensures
        ({
            let steps = spec_dismiss_command_bar(Some(state), own_pid, phase.is_created());
            &&& steps == if phase.is_created() {
                seq![best_effort(WindowAction::Hide)]
            } else {
                Seq::<WindowStep>::empty()
            }
            &&& forall|i: int|
                0 <= i < steps.len() ==> (#[trigger] steps[i]).action
                    != WindowAction::HideApplication
            &&& phase.is_created() ==> phase_after_all(phase, steps) == WindowPhase::Hidden
        }),
{
    lemma_plain_dismissal(Some(state), own_pid, phase);
}

/// Dismissing the popup when the application captured as frontmost is
/// this very process goes as it does when nothing was captured: the
/// window is hidden and the application as a whole is left alone.
pub proof fn dismissal_over_own_application_only_hides(
    state: CommandBarShortcutStateView,
    own_pid: int,
    phase: WindowPhase,
)
    requires
        state.previous_frontmost_pid == own_pid,
    ensures
        ({
            let steps = spec_dismiss_command_bar(Some(state), own_pid, phase.is_created());
            let uncaptured = CommandBarShortcutStateView {
                previous_frontmost_pid: NO_FRONTMOST_PID as int,
                ..state
            };
            &&& steps == spec_dismiss_command_bar(
                Some(uncaptured),
                own_pid,
                phase.is_created(),
            )
            &&& forall|i: int|
                0 <= i < steps.len() ==> (#[trigger] steps[i]).action
                    != WindowAction::HideApplication
            &&& phase.is_created() ==> phase_after_all(phase, steps) == WindowPhase::Hidden
        }),
{
    let uncaptured = CommandBarShortcutStateView {
        previous_frontmost_pid: NO_FRONTMOST_PID as int,
        ..state
    };
    lemma_plain_dismissal(Some(state), own_pid, phase);
    lemma_plain_dismissal(Some(uncaptured), own_pid, phase);
}

/// Dismissing the popup over another application, on a platform that can
/// hand the focus back, hides the application as a whole before the window
/// itself, which is left hidden.
pub proof fn dismissal_over_another_application_hides_the_application(
    state: CommandBarShortcutStateView,
    own_pid: int,
    phase: WindowPhase,
)
    requires
        state.platform.spec_tracks_frontmost(),
        state.previous_frontmost_pid > 0,
        state.previous_frontmost_pid != own_pid,
        phase.is_created(),
    ensures
        ({
            let steps = spec_dismiss_command_bar(Some(state), own_pid, true);
            &&& steps == seq![
                best_effort(WindowAction::HideApplication),
                best_effort(WindowAction::Hide),
            ]
            &&& phase_after_all(phase, steps) == WindowPhase::Hidden
        }),
{
    let steps = spec_dismiss_command_bar(Some(state), own_pid, true);
    assert(steps =~= seq![
        best_effort(WindowAction::HideApplication),
        best_effort(WindowAction::Hide),
    ]);
    reveal_with_fuel(phase_after_all, 3);
    assert(steps.drop_last().drop_last().len() == 0);
}

} // verus!
