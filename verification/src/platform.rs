use vstd::prelude::*;

verus! {

/// The platform families between which the command bar behaves differently.
#[derive(Clone, Copy, Debug, PartialEq, Eq, Structural)]
pub enum Platform {
    /// macOS: the primary modifier is Command, and the frontmost application
    /// can be captured and handed focus back.
    MacOs,
    /// Every other desktop platform: the primary modifier is Control, and
    /// there is no frontmost-application primitive.
    Other,
}

impl Platform {
    /// Whether the platform can tell which application is frontmost, and
    /// hide this application in favour of it.
    pub open spec fn spec_tracks_frontmost(self) -> bool {
        self == Platform::MacOs
    }

    /// Whether the platform can tell which application is frontmost.
    #[verifier::when_used_as_spec(spec_tracks_frontmost)]
    pub fn tracks_frontmost(self) -> (tracks: bool)
        ensures
            tracks == self.spec_tracks_frontmost(),
    {
        match self {
            Platform::MacOs => true,
            Platform::Other => false,
        }
    }
}

} // verus!
