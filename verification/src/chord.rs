use vstd::prelude::*;

verus! {

/// A modifier key that may be part of a global shortcut.
#[derive(Clone, Copy, Debug, PartialEq, Eq, Structural)]
pub enum Modifier {
    Alt,
    Control,
    Shift,
    /// The Command key on macOS, the Windows or Super key elsewhere.
    Super,
}

/// A set of modifier keys, one flag per key.
#[derive(Clone, Copy, Debug, PartialEq, Eq, Structural)]
pub struct ModifierSet {
    pub alt: bool,
    pub control: bool,
    pub shift: bool,
    pub super_key: bool,
}

impl ModifierSet {
    /// The set that holds `modifier` and nothing else.
    pub open spec fn spec_only(modifier: Modifier) -> ModifierSet {
        ModifierSet {
            alt: modifier == Modifier::Alt,
            control: modifier == Modifier::Control,
            shift: modifier == Modifier::Shift,
            super_key: modifier == Modifier::Super,
        }
    }

    /// The set of the modifiers that are in `self` or in `other`.
    pub open spec fn spec_union(self, other: ModifierSet) -> ModifierSet {
        ModifierSet {
            alt: self.alt || other.alt,
            control: self.control || other.control,
            shift: self.shift || other.shift,
            super_key: self.super_key || other.super_key,
        }
    }

    /// The set that holds `modifier` and nothing else.
    #[verifier::when_used_as_spec(spec_only)]
    pub fn only(modifier: Modifier) -> (set: ModifierSet)
        ensures
            set == ModifierSet::spec_only(modifier),
    {
        match modifier {
            Modifier::Alt => ModifierSet { alt: true, control: false, shift: false, super_key: false },
            Modifier::Control => ModifierSet {
                alt: false,
                control: true,
                shift: false,
                super_key: false,
            },
            Modifier::Shift => ModifierSet {
                alt: false,
                control: false,
                shift: true,
                super_key: false,
            },
            Modifier::Super => ModifierSet {
                alt: false,
                control: false,
                shift: false,
                super_key: true,
            },
        }
    }

    /// The set of the modifiers that are in `self` or in `other`.
    #[verifier::when_used_as_spec(spec_union)]
    pub fn union(self, other: ModifierSet) -> (set: ModifierSet)
        ensures
            set == self.spec_union(other),
    {
        ModifierSet {
            alt: self.alt || other.alt,
            control: self.control || other.control,
            shift: self.shift || other.shift,
            super_key: self.super_key || other.super_key,
        }
    }
}

/// The non-modifier key of a global shortcut, by its physical position.
#[derive(Clone, Copy, Debug, PartialEq, Eq, Structural)]
pub enum KeyCode {
    KeyK,
    Space,
}

/// A key combination that can be bound system-wide: the modifiers to hold
/// and the key to press.
#[derive(Clone, Copy, Debug, PartialEq, Eq, Structural)]
pub struct KeyChord {
    pub modifiers: ModifierSet,
    pub key: KeyCode,
}

} // verus!
