use vstd::prelude::*;
use vstd::string::StringExecFns;

verus! {

/// Why an operation on the shortcut registry failed.
#[derive(Debug, PartialEq, Eq)]
pub enum ShortcutError {
    /// The identifier names no preset.
    UnsupportedPreset { preset: String },
    /// The operating system refused to bind the preset's chord.
    RegistrationFailed { preset: String, reason: String },
    /// The chord of a newly chosen preset could not be bound, so the change
    /// of preset was given up.
    RebindFailed { preset: String, reason: String },
    /// The lock that guards the registry's state could not be taken.
    StateLockFailed,
}

/// A `ShortcutError` as a mathematical value.
pub enum ShortcutFailure {
    UnsupportedPreset { preset: Seq<char> },
    RegistrationFailed { preset: Seq<char>, reason: Seq<char> },
    RebindFailed { preset: Seq<char>, reason: Seq<char> },
    StateLockFailed,
}

impl View for ShortcutError {
    type V = ShortcutFailure;

    open spec fn view(&self) -> ShortcutFailure {
        match self {
            ShortcutError::UnsupportedPreset { preset } => ShortcutFailure::UnsupportedPreset {
                preset: preset@,
            },
            ShortcutError::RegistrationFailed { preset, reason } => {
                ShortcutFailure::RegistrationFailed { preset: preset@, reason: reason@ }
            },
            ShortcutError::RebindFailed { preset, reason } => ShortcutFailure::RebindFailed {
                preset: preset@,
                reason: reason@,
            },
            ShortcutError::StateLockFailed => ShortcutFailure::StateLockFailed,
        }
    }
}

/// A result whose error, if there is one, is taken by its view.
pub open spec fn outcome<T>(result: Result<T, ShortcutError>) -> Result<T, ShortcutFailure> {
    match result {
        Ok(value) => Ok(value),
        Err(error) => Err(error@),
    }
}

impl ShortcutFailure {
    /// The text shown to the user for this failure.
    pub open spec fn message(self) -> Seq<char> {
        match self {
            ShortcutFailure::UnsupportedPreset { preset } => {
                "Unsupported command bar shortcut preset '"@ + preset + "'."@
            },
            ShortcutFailure::RegistrationFailed { preset, reason } => {
                "Failed to register shortcut preset '"@ + preset + "': "@ + reason
            },
            ShortcutFailure::RebindFailed { preset, reason } => {
                "Failed to register new shortcut: "@ + "Failed to register shortcut preset '"@
                    + preset + "': "@ + reason
            },
            ShortcutFailure::StateLockFailed => "Failed to lock command bar preset state."@,
        }
    }
}

impl ShortcutError {
    /// The text shown to the user for this error.
    pub fn message(&self) -> (text: String)
        ensures
            text@ == self@.message(),
    {
        match self {
            ShortcutError::UnsupportedPreset { preset } => {
                let mut text: String = "Unsupported command bar shortcut preset '".to_owned();
                text.append(preset.as_str());
                text.append("'.");
                text
            },
            ShortcutError::RegistrationFailed { preset, reason } => {
                let mut text: String = "Failed to register shortcut preset '".to_owned();
                text.append(preset.as_str());
                text.append("': ");
                text.append(reason.as_str());
                text
            },
            ShortcutError::RebindFailed { preset, reason } => {
                let mut text: String = "Failed to register new shortcut: ".to_owned();
                text.append("Failed to register shortcut preset '");
                text.append(preset.as_str());
                text.append("': ");
                text.append(reason.as_str());
                assert(text@ == self@.message());
                text
            },
            ShortcutError::StateLockFailed => "Failed to lock command bar preset state.".to_owned(),
        }
    }
}

} // verus!
