use crate::chord::{KeyChord, KeyCode, Modifier, ModifierSet};
use crate::platform::Platform;
use crate::text::same_text;
use vstd::prelude::*;

verus! {

/// The identifier of the preset that is active when the application starts.
pub const DEFAULT_SHORTCUT_PRESET_ID: &'static str = "cmd_or_ctrl_shift_k";

/// The shortcut presets a user can choose between. The set is closed.
#[derive(Clone, Copy, Debug, PartialEq, Eq, Structural)]
pub enum ShortcutPreset {
    /// The primary modifier, Shift and K.
    CmdOrCtrlShiftK,
    /// Control and Space.
    CtrlSpace,
    /// Alt and Space.
    AltSpace,
}

/// The modifier that a platform's own shortcuts are built on: Command on
/// macOS, Control elsewhere.
pub open spec fn spec_primary_modifier(platform: Platform) -> Modifier {
    match platform {
        Platform::MacOs => Modifier::Super,
        Platform::Other => Modifier::Control,
    }
}

/// The modifier that `platform`'s own shortcuts are built on.
#[verifier::when_used_as_spec(spec_primary_modifier)]
pub fn primary_modifier(platform: Platform) -> (modifier: Modifier)
    ensures
        modifier == spec_primary_modifier(platform),
{
    match platform {
        Platform::MacOs => Modifier::Super,
        Platform::Other => Modifier::Control,
    }
}

impl ShortcutPreset {
    /// The identifier under which the preset is known to the frontend.
    pub open spec fn spec_id(self) -> Seq<char> {
        match self {
            ShortcutPreset::CmdOrCtrlShiftK => "cmd_or_ctrl_shift_k"@,
            ShortcutPreset::CtrlSpace => "ctrl_space"@,
            ShortcutPreset::AltSpace => "alt_space"@,
        }
    }

    /// The preset that `id` names, if it names one. Identifiers are matched
    /// as they stand: case and surrounding blanks count.
    pub open spec fn spec_from_id(id: Seq<char>) -> Option<ShortcutPreset> {
        if id == "cmd_or_ctrl_shift_k"@ {
            Some(ShortcutPreset::CmdOrCtrlShiftK)
        } else if id == "ctrl_space"@ {
            Some(ShortcutPreset::CtrlSpace)
        } else if id == "alt_space"@ {
            Some(ShortcutPreset::AltSpace)
        } else {
            None
        }
    }

    /// The key chord that the preset stands for on `platform`.
    pub open spec fn spec_chord(self, platform: Platform) -> KeyChord {
        match self {
            ShortcutPreset::CmdOrCtrlShiftK => KeyChord {
                modifiers: ModifierSet::spec_only(spec_primary_modifier(platform)).spec_union(
                    ModifierSet::spec_only(Modifier::Shift),
                ),
                key: KeyCode::KeyK,
            },
            ShortcutPreset::CtrlSpace => KeyChord {
                modifiers: ModifierSet::spec_only(Modifier::Control),
                key: KeyCode::Space,
            },
            ShortcutPreset::AltSpace => KeyChord {
                modifiers: ModifierSet::spec_only(Modifier::Alt),
                key: KeyCode::Space,
            },
        }
    }

    /// The identifier under which the preset is known to the frontend.
    pub fn id(self) -> (id: &'static str)
        ensures
            id@ == self.spec_id(),
    {
        match self {
            ShortcutPreset::CmdOrCtrlShiftK => "cmd_or_ctrl_shift_k",
            ShortcutPreset::CtrlSpace => "ctrl_space",
            ShortcutPreset::AltSpace => "alt_space",
        }
    }

    /// The preset that `id` names, if it names one.
    pub fn from_id(id: &str) -> (preset: Option<ShortcutPreset>)
        ensures
            preset == ShortcutPreset::spec_from_id(id@),
    {
        if same_text(id, "cmd_or_ctrl_shift_k") {
            Some(ShortcutPreset::CmdOrCtrlShiftK)
        } else if same_text(id, "ctrl_space") {
            Some(ShortcutPreset::CtrlSpace)
        } else if same_text(id, "alt_space") {
            Some(ShortcutPreset::AltSpace)
        } else {
            None
        }
    }

    /// The key chord that the preset stands for on `platform`.
    #[verifier::when_used_as_spec(spec_chord)]
    pub fn chord(self, platform: Platform) -> (chord: KeyChord)
        ensures
            chord == self.spec_chord(platform),
    {
        match self {
            ShortcutPreset::CmdOrCtrlShiftK => KeyChord {
                modifiers: ModifierSet::only(primary_modifier(platform)).union(
                    ModifierSet::only(Modifier::Shift),
                ),
                key: KeyCode::KeyK,
            },
            ShortcutPreset::CtrlSpace => KeyChord {
                modifiers: ModifierSet::only(Modifier::Control),
                key: KeyCode::Space,
            },
            ShortcutPreset::AltSpace => KeyChord {
                modifiers: ModifierSet::only(Modifier::Alt),
                key: KeyCode::Space,
            },
        }
    }
}

/// The chord that the identifier `id` resolves to on `platform`, if `id`
/// names a preset.
pub open spec fn spec_shortcut_for_preset(platform: Platform, id: Seq<char>) -> Option<KeyChord> {
    match ShortcutPreset::spec_from_id(id) {
        Some(preset) => Some(preset.spec_chord(platform)),
        None => None,
    }
}

/// Looks a preset identifier up in the table of presets.
pub fn shortcut_for_preset(platform: Platform, preset_id: &str) -> (chord: Option<KeyChord>)
    ensures
        chord == spec_shortcut_for_preset(platform, preset_id@),
        chord is Some <==> ShortcutPreset::spec_from_id(preset_id@) is Some,
{
    match ShortcutPreset::from_id(preset_id) {
        Some(preset) => Some(preset.chord(platform)),
        None => None,
    }
}

} // verus!
