use command_bar::error::ShortcutError;
use command_bar::platform::Platform;
use command_bar::preset::{ShortcutPreset, DEFAULT_SHORTCUT_PRESET_ID};
use command_bar::registry::{
    commit_preset_change, plan_preset_change, register_shortcut_preset, registration_outcome,
    set_command_bar_shortcut_preset, PresetChange,
};
use command_bar::state::{CommandBarShortcutState, NO_FRONTMOST_PID};

fn unsupported(preset: &str) -> ShortcutError {
    ShortcutError::UnsupportedPreset { preset: preset.to_string() }
}

fn rebind(platform: Platform, from: ShortcutPreset, to: ShortcutPreset) -> PresetChange {
    PresetChange::Rebind { release: from.chord(platform), bind: to.chord(platform), preset: to }
}

#[test]
fn a_new_state_has_the_default_preset_and_no_captured_application() {
    for platform in [Platform::MacOs, Platform::Other] {
        let state = CommandBarShortcutState::new(platform);
        assert_eq!(state.platform(), platform);
        assert_eq!(state.active_preset(), ShortcutPreset::CmdOrCtrlShiftK);
        assert_eq!(state.active_preset().id(), DEFAULT_SHORTCUT_PRESET_ID);
        assert_eq!(state.previous_frontmost_pid(), -1);
        assert_eq!(NO_FRONTMOST_PID, -1);
    }
}

#[test]
fn recording_the_frontmost_application_overwrites_the_last_one() {
    let mut state = CommandBarShortcutState::new(Platform::MacOs);
    state.record_frontmost(4242);
    assert_eq!(state.previous_frontmost_pid(), 4242);
    state.record_frontmost(17);
    assert_eq!(state.previous_frontmost_pid(), 17);
    state.record_frontmost(-1);
    assert_eq!(state.previous_frontmost_pid(), -1);
    assert_eq!(state.active_preset(), ShortcutPreset::CmdOrCtrlShiftK);
    assert_eq!(state.platform(), Platform::MacOs);
}

#[test]
fn changing_preset_then_repeating_then_asking_for_an_unknown_one() {
    let platform = Platform::Other;
    let mut state = CommandBarShortcutState::new(platform);
    assert_eq!(state.active_preset().id(), "cmd_or_ctrl_shift_k");

    let first = set_command_bar_shortcut_preset(Some(&state), "ctrl_space");
    assert_eq!(
        first,
        Ok(rebind(platform, ShortcutPreset::CmdOrCtrlShiftK, ShortcutPreset::CtrlSpace))
    );
    assert_eq!(
        commit_preset_change(Some(&mut state), ShortcutPreset::CtrlSpace, Ok(())),
        Ok(())
    );
    assert_eq!(state.active_preset().id(), "ctrl_space");

    let second = set_command_bar_shortcut_preset(Some(&state), "ctrl_space");
    assert_eq!(second, Ok(PresetChange::Unchanged));
    assert_eq!(state.active_preset().id(), "ctrl_space");

    let third = set_command_bar_shortcut_preset(Some(&state), "not_a_real_preset");
    assert_eq!(third, Err(unsupported("not_a_real_preset")));
    assert_eq!(state.active_preset().id(), "ctrl_space");
}

#[test]
fn the_chords_of_a_change_follow_the_platform() {
    let state = CommandBarShortcutState::new(Platform::MacOs);
    let plan = set_command_bar_shortcut_preset(Some(&state), "alt_space");
    match plan {
        Ok(PresetChange::Rebind { release, bind, preset }) => {
            assert!(release.modifiers.super_key && release.modifiers.shift);
            assert!(!release.modifiers.control && !release.modifiers.alt);
            assert_eq!(release, ShortcutPreset::CmdOrCtrlShiftK.chord(Platform::MacOs));
            assert_eq!(bind, ShortcutPreset::AltSpace.chord(Platform::MacOs));
            assert_eq!(preset, ShortcutPreset::AltSpace);
        }
        other => panic!("{:?}", other),
    }
}

#[test]
fn asking_for_the_active_preset_changes_nothing() {
    for platform in [Platform::MacOs, Platform::Other] {
        let state = CommandBarShortcutState::new(platform);
        assert_eq!(
            set_command_bar_shortcut_preset(Some(&state), "cmd_or_ctrl_shift_k"),
            Ok(PresetChange::Unchanged)
        );
        assert_eq!(
            plan_preset_change(Some(&state), "cmd_or_ctrl_shift_k"),
            Ok(PresetChange::Unchanged)
        );
    }
}

#[test]
fn a_request_that_went_through_is_not_carried_out_twice() {
    let presets =
        [ShortcutPreset::CmdOrCtrlShiftK, ShortcutPreset::CtrlSpace, ShortcutPreset::AltSpace];
    for platform in [Platform::MacOs, Platform::Other] {
        for start in presets {
            for wanted in presets {
                let mut state = CommandBarShortcutState::new(platform);
                let _ = commit_preset_change(Some(&mut state), start, Ok(()));
                let first = set_command_bar_shortcut_preset(Some(&state), wanted.id());
                if let Ok(PresetChange::Rebind { preset, .. }) = first {
                    assert_eq!(commit_preset_change(Some(&mut state), preset, Ok(())), Ok(()));
                }
                assert_eq!(
                    set_command_bar_shortcut_preset(Some(&state), wanted.id()),
                    Ok(PresetChange::Unchanged)
                );
                assert_eq!(state.active_preset(), wanted);
            }
        }
    }
}

#[test]
fn blanks_around_the_identifier_are_set_aside() {
    let state = CommandBarShortcutState::new(Platform::Other);
    let wanted = Ok(rebind(Platform::Other, ShortcutPreset::CmdOrCtrlShiftK, ShortcutPreset::AltSpace));
    assert_eq!(set_command_bar_shortcut_preset(Some(&state), "  alt_space"), wanted);
    assert_eq!(set_command_bar_shortcut_preset(Some(&state), "alt_space\t\r\n"), wanted);
    assert_eq!(set_command_bar_shortcut_preset(Some(&state), " \n alt_space \n "), wanted);
    assert_eq!(
        set_command_bar_shortcut_preset(Some(&state), "\u{a0}\u{2003}alt_space\u{3000}\u{85}"),
        wanted
    );
    assert_eq!(
        set_command_bar_shortcut_preset(Some(&state), " cmd_or_ctrl_shift_k "),
        Ok(PresetChange::Unchanged)
    );
}

#[test]
fn blanks_inside_the_identifier_are_kept() {
    let state = CommandBarShortcutState::new(Platform::Other);
    assert_eq!(
        set_command_bar_shortcut_preset(Some(&state), " alt _space "),
        Err(unsupported("alt _space"))
    );
    assert_eq!(
        set_command_bar_shortcut_preset(Some(&state), "\u{feff}alt_space"),
        Err(unsupported("\u{feff}alt_space"))
    );
}

#[test]
fn an_unknown_identifier_is_reported_without_its_blanks() {
    let state = CommandBarShortcutState::new(Platform::Other);
    assert_eq!(set_command_bar_shortcut_preset(Some(&state), "  nope \n"), Err(unsupported("nope")));
    assert_eq!(set_command_bar_shortcut_preset(Some(&state), ""), Err(unsupported("")));
    assert_eq!(set_command_bar_shortcut_preset(Some(&state), " \t\n"), Err(unsupported("")));
}

#[test]
fn planning_takes_the_identifier_as_it_stands() {
    let state = CommandBarShortcutState::new(Platform::Other);
    assert_eq!(plan_preset_change(Some(&state), " alt_space"), Err(unsupported(" alt_space")));
    assert_eq!(
        plan_preset_change(Some(&state), "alt_space"),
        Ok(rebind(Platform::Other, ShortcutPreset::CmdOrCtrlShiftK, ShortcutPreset::AltSpace))
    );
}

#[test]
fn an_unknown_identifier_leaves_the_active_preset_alone() {
    let mut state = CommandBarShortcutState::new(Platform::MacOs);
    assert_eq!(commit_preset_change(Some(&mut state), ShortcutPreset::AltSpace, Ok(())), Ok(()));
    for id in ["not_a_real_preset", "", "ALT_SPACE", "alt_space!"] {
        assert_eq!(set_command_bar_shortcut_preset(Some(&state), id), Err(unsupported(id)));
        assert_eq!(state.active_preset(), ShortcutPreset::AltSpace);
    }
}

#[test]
fn an_unknown_identifier_is_turned_down_before_the_state_is_needed() {
    assert_eq!(set_command_bar_shortcut_preset(None, "bogus"), Err(unsupported("bogus")));
    assert_eq!(plan_preset_change(None, "bogus"), Err(unsupported("bogus")));
}

#[test]
fn a_state_out_of_reach_fails_the_request() {
    assert_eq!(
        set_command_bar_shortcut_preset(None, "ctrl_space"),
        Err(ShortcutError::StateLockFailed)
    );
    assert_eq!(
        set_command_bar_shortcut_preset(None, " cmd_or_ctrl_shift_k "),
        Err(ShortcutError::StateLockFailed)
    );
    assert_eq!(plan_preset_change(None, "alt_space"), Err(ShortcutError::StateLockFailed));
}

#[test]
fn a_refused_binding_fails_the_change_and_keeps_the_active_preset() {
    let mut state = CommandBarShortcutState::new(Platform::Other);
    let result = commit_preset_change(
        Some(&mut state),
        ShortcutPreset::CtrlSpace,
        Err("HotKey already registered".to_string()),
    );
    assert_eq!(
        result,
        Err(ShortcutError::RebindFailed {
            preset: "ctrl_space".to_string(),
            reason: "HotKey already registered".to_string(),
        })
    );
    assert_eq!(state.active_preset(), ShortcutPreset::CmdOrCtrlShiftK);
    assert_eq!(state.previous_frontmost_pid(), -1);
    assert_eq!(
        set_command_bar_shortcut_preset(Some(&state), "ctrl_space"),
        Ok(rebind(Platform::Other, ShortcutPreset::CmdOrCtrlShiftK, ShortcutPreset::CtrlSpace))
    );
}

#[test]
fn committing_changes_the_active_preset_and_nothing_else() {
    let mut state = CommandBarShortcutState::new(Platform::MacOs);
    state.record_frontmost(991);
    assert_eq!(commit_preset_change(Some(&mut state), ShortcutPreset::AltSpace, Ok(())), Ok(()));
    assert_eq!(state.active_preset(), ShortcutPreset::AltSpace);
    assert_eq!(state.previous_frontmost_pid(), 991);
    assert_eq!(state.platform(), Platform::MacOs);
}

#[test]
fn committing_without_the_state_fails_once_the_chord_is_bound() {
    assert_eq!(
        commit_preset_change(None, ShortcutPreset::AltSpace, Ok(())),
        Err(ShortcutError::StateLockFailed)
    );
}

#[test]
fn a_refused_binding_is_reported_even_without_the_state() {
    assert_eq!(
        commit_preset_change(None, ShortcutPreset::AltSpace, Err("taken".to_string())),
        Err(ShortcutError::RebindFailed {
            preset: "alt_space".to_string(),
            reason: "taken".to_string(),
        })
    );
}

#[test]
fn registering_resolves_the_chord_to_bind() {
    for platform in [Platform::MacOs, Platform::Other] {
        assert_eq!(
            register_shortcut_preset(platform, DEFAULT_SHORTCUT_PRESET_ID),
            Ok(ShortcutPreset::CmdOrCtrlShiftK.chord(platform))
        );
        assert_eq!(
            register_shortcut_preset(platform, "ctrl_space"),
            Ok(ShortcutPreset::CtrlSpace.chord(platform))
        );
    }
}

#[test]
fn registering_takes_the_identifier_as_it_stands() {
    assert_eq!(
        register_shortcut_preset(Platform::Other, " ctrl_space "),
        Err(unsupported(" ctrl_space "))
    );
    assert_eq!(register_shortcut_preset(Platform::MacOs, "f13"), Err(unsupported("f13")));
}

#[test]
fn the_outcome_of_a_registration_follows_the_answer() {
    assert_eq!(registration_outcome("ctrl_space", Ok(())), Ok(()));
    assert_eq!(
        registration_outcome("ctrl_space", Err("denied".to_string())),
        Err(ShortcutError::RegistrationFailed {
            preset: "ctrl_space".to_string(),
            reason: "denied".to_string(),
        })
    );
}

#[test]
fn messages_read_as_the_frontend_expects() {
    assert_eq!(
        unsupported("not_a_real_preset").message(),
        "Unsupported command bar shortcut preset 'not_a_real_preset'."
    );
    assert_eq!(unsupported("").message(), "Unsupported command bar shortcut preset ''.");
    assert_eq!(
        ShortcutError::RegistrationFailed {
            preset: "alt_space".to_string(),
            reason: "HotKey already registered".to_string(),
        }
        .message(),
        "Failed to register shortcut preset 'alt_space': HotKey already registered"
    );
    assert_eq!(
        ShortcutError::RebindFailed {
            preset: "alt_space".to_string(),
            reason: "HotKey already registered".to_string(),
        }
        .message(),
        "Failed to register new shortcut: Failed to register shortcut preset 'alt_space': HotKey already registered"
    );
    assert_eq!(
        ShortcutError::StateLockFailed.message(),
        "Failed to lock command bar preset state."
    );
}

#[test]
fn messages_keep_text_outside_ascii() {
    assert_eq!(
        unsupported("préréglage ⌘").message(),
        "Unsupported command bar shortcut preset 'préréglage ⌘'."
    );
}
