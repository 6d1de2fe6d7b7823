use crate::platform::Platform;
use crate::state::{viewed, CommandBarShortcutState, CommandBarShortcutStateView};
use vstd::prelude::*;

verus! {

/// The label under which the popup window is known to the host.
pub const COMMAND_BAR_WINDOW_LABEL: &'static str = "command-bar";

/// The route of the frontend that the popup window shows.
pub const COMMAND_BAR_WINDOW_ROUTE: &'static str = "/desktop/command-bar";

/// The title of the popup window.
pub const COMMAND_BAR_WINDOW_TITLE: &'static str = "Kompose Command Bar";

/// The width of the popup window's content, in logical pixels.
pub const COMMAND_BAR_WINDOW_WIDTH: u32 = 480;

/// The height of the popup window's content, in logical pixels.
pub const COMMAND_BAR_WINDOW_HEIGHT: u32 = 56;

/// How the popup window is to be built.
#[derive(Clone, Copy, Debug, PartialEq, Eq)]
pub struct WindowConfig {
    pub label: &'static str,
    pub route: &'static str,
    pub title: &'static str,
    pub visible: bool,
    pub focused: bool,
    pub resizable: bool,
    pub decorations: bool,
    pub always_on_top: bool,
    pub skip_taskbar: bool,
    pub width: u32,
    pub height: u32,
}

/// Where the popup window stands in its life.
#[derive(Clone, Copy, Debug, PartialEq, Eq, Structural)]
pub enum WindowPhase {
    /// The window has not been built yet.
    Uncreated,
    /// The window exists and is not shown.
    Hidden,
    /// The window exists and is shown.
    Visible,
}

/// Whether a global shortcut's key went down or came up.
#[derive(Clone, Copy, Debug, PartialEq, Eq, Structural)]
pub enum KeyState {
    Pressed,
    Released,
}

/// One call that the host makes on the controller's behalf.
#[derive(Clone, Copy, Debug, PartialEq, Eq, Structural)]
pub enum WindowAction {
    /// Build the window as `command_bar_window_config` says, and have every
    /// change of its focus answered by `focus_changed`.
    Create,
    /// Ask the platform which application is frontmost and hand its process
    /// id to `CommandBarShortcutState::record_frontmost`.
    CaptureFrontmost,
    /// Show the window.
    Show,
    /// Centre the window on the screen.
    Center,
    /// Give the window the input focus.
    Focus,
    /// Hide the window.
    Hide,
    /// Hide the whole application, which hands the focus back to the
    /// application that was frontmost before, with no frame in between.
    HideApplication,
}

/// An action together with what its failure means.
#[derive(Clone, Copy, Debug, PartialEq, Eq, Structural)]
pub struct WindowStep {
    pub action: WindowAction,
    /// Whether a failure of the action ends the operation, so that the
    /// steps after it are not taken and the failure is reported. The
    /// failure of a step that is not required is at most logged.
    pub required: bool,
}

impl KeyState {
    /// Whether an event of the global shortcut in this state toggles the
    /// popup: a press does, a release is passed over.
    pub open spec fn spec_toggles(self) -> bool {
        self == KeyState::Pressed
    }

    /// Whether an event of the global shortcut in this state toggles the
    /// popup.
    #[verifier::when_used_as_spec(spec_toggles)]
    pub fn toggles(self) -> (toggles: bool)
        ensures
            toggles == self.spec_toggles(),
    {
        match self {
            KeyState::Pressed => true,
            KeyState::Released => false,
        }
    }
}

impl WindowPhase {
    /// Whether the window exists.
    pub open spec fn is_created(self) -> bool {
        self != WindowPhase::Uncreated
    }
}

/// An action whose failure ends the operation.
pub open spec fn required(action: WindowAction) -> WindowStep {
    WindowStep { action, required: true }
}

/// An action whose failure is passed over.
pub open spec fn best_effort(action: WindowAction) -> WindowStep {
    WindowStep { action, required: false }
}

/// The phase of the window after `action` has succeeded in `phase`.
/// Building it leaves it hidden; showing and hiding need it to exist; and
/// hiding the application does not hide the window itself, which would
/// come back with the application.
pub open spec fn phase_after(phase: WindowPhase, action: WindowAction) -> WindowPhase {
    match action {
        WindowAction::Create => if phase == WindowPhase::Uncreated {
            WindowPhase::Hidden
        } else {
            phase
        },
        WindowAction::Show => if phase == WindowPhase::Hidden {
            WindowPhase::Visible
        } else {
            phase
        },
        WindowAction::Hide => if phase == WindowPhase::Visible {
            WindowPhase::Hidden
        } else {
            phase
        },
        WindowAction::CaptureFrontmost => phase,
        WindowAction::Center => phase,
        WindowAction::Focus => phase,
        WindowAction::HideApplication => phase,
    }
}

/// The phase of the window after every one of `steps` has succeeded in
/// turn, starting in `phase`.
pub open spec fn phase_after_all(phase: WindowPhase, steps: Seq<WindowStep>) -> WindowPhase
    decreases steps.len(),
{
    if steps.len() == 0 {
        phase
    } else {
        phase_after(phase_after_all(phase, steps.drop_last()), steps.last().action)
    }
}

/// The steps that make sure the window exists: it is built where there is
/// none, and left alone where there is one.
pub open spec fn spec_create_command_bar_window(window_exists: bool) -> Seq<WindowStep> {
    if window_exists {
        seq![]
    } else {
        seq![required(WindowAction::Create)]
    }
}

/// The steps that toggle the window. A shown window is hidden. A hidden
/// one is shown, centred and focused, after the frontmost application has
/// been captured where the platform can tell it. Without a window there is
/// nothing to do.
pub open spec fn spec_toggle_command_bar_window(phase: WindowPhase, platform: Platform) -> Seq<
    WindowStep,
> {
    match phase {
        WindowPhase::Uncreated => seq![],
        WindowPhase::Visible => seq![required(WindowAction::Hide)],
        WindowPhase::Hidden => if platform.spec_tracks_frontmost() {
            seq![
                best_effort(WindowAction::CaptureFrontmost),
                required(WindowAction::Show),
                best_effort(WindowAction::Center),
                required(WindowAction::Focus),
            ]
        } else {
            seq![
                required(WindowAction::Show),
                best_effort(WindowAction::Center),
                required(WindowAction::Focus),
            ]
        },
    }
}

/// The steps that answer a change of the window's focus, which the window
/// reports from the time it is built: a window that lost the focus is
/// hidden, whatever took the focus away.
pub open spec fn spec_focus_changed(focused: bool) -> Seq<WindowStep> {
    if focused {
        seq![]
    } else {
        seq![best_effort(WindowAction::Hide)]
    }
}

/// Whether dismissing the popup hands the focus back to another
/// application: the platform can do so, and a process other than this one
/// (`own_pid`) was captured as frontmost when the popup opened. A state
/// that is out of reach counts as nothing captured.
pub open spec fn restores_frontmost(state: Option<CommandBarShortcutStateView>, own_pid: int) -> bool {
    match state {
        Some(state) => {
            &&& state.platform.spec_tracks_frontmost()
            &&& state.previous_frontmost_pid > 0
            &&& state.previous_frontmost_pid != own_pid
        },
        None => false,
    }
}

/// The steps that dismiss the popup. Where the focus goes back to another
/// application, the whole application is hidden first; in every case the
/// window itself, if there is one, is hidden.
pub open spec fn spec_dismiss_command_bar(
    state: Option<CommandBarShortcutStateView>,
    own_pid: int,
    window_exists: bool,
) -> Seq<WindowStep> {
    let hide_application = if restores_frontmost(state, own_pid) {
        seq![best_effort(WindowAction::HideApplication)]
    } else {
        seq![]
    };
    let hide_window = if window_exists {
        seq![best_effort(WindowAction::Hide)]
    } else {
        seq![]
    };
    hide_application + hide_window
}

/// How the popup window is built: out of sight and out of focus, of a
/// fixed small size, without decorations, above other windows and absent
/// from the taskbar.
pub fn command_bar_window_config() -> (config: WindowConfig)
    ensures
        config.label@ == COMMAND_BAR_WINDOW_LABEL@,
        config.route@ == COMMAND_BAR_WINDOW_ROUTE@,
        config.title@ == COMMAND_BAR_WINDOW_TITLE@,
        !config.visible,
        !config.focused,
        !config.resizable,
        !config.decorations,
        config.always_on_top,
        config.skip_taskbar,
        config.width == COMMAND_BAR_WINDOW_WIDTH,
        config.height == COMMAND_BAR_WINDOW_HEIGHT,
{
    WindowConfig {
        label: COMMAND_BAR_WINDOW_LABEL,
        route: COMMAND_BAR_WINDOW_ROUTE,
        title: COMMAND_BAR_WINDOW_TITLE,
        visible: false,
        focused: false,
        resizable: false,
        decorations: false,
        always_on_top: true,
        skip_taskbar: true,
        width: COMMAND_BAR_WINDOW_WIDTH,
        height: COMMAND_BAR_WINDOW_HEIGHT,
    }
}

/// Makes sure the popup window exists, given whether it was found to.
pub fn create_command_bar_window(window_exists: bool) -> (steps: Vec<WindowStep>)
    ensures
        steps@ == spec_create_command_bar_window(window_exists),
{
    let mut steps: Vec<WindowStep> = Vec::new();
    if !window_exists {
        steps.push(WindowStep { action: WindowAction::Create, required: true });
    }
    assert(steps@ =~= spec_create_command_bar_window(window_exists));
    steps
}

/// Toggles the popup window, given the phase it was found in.
pub fn toggle_command_bar_window(phase: WindowPhase, platform: Platform) -> (steps: Vec<WindowStep>)
    ensures
        steps@ == spec_toggle_command_bar_window(phase, platform),
{
    let mut steps: Vec<WindowStep> = Vec::new();
    match phase {
        WindowPhase::Uncreated => {},
        WindowPhase::Visible => {
            steps.push(WindowStep { action: WindowAction::Hide, required: true });
        },
        WindowPhase::Hidden => {
            if platform.tracks_frontmost() {
                steps.push(WindowStep { action: WindowAction::CaptureFrontmost, required: false });
            }
            steps.push(WindowStep { action: WindowAction::Show, required: true });
            steps.push(WindowStep { action: WindowAction::Center, required: false });
            steps.push(WindowStep { action: WindowAction::Focus, required: true });
        },
    }
    assert(steps@ =~= spec_toggle_command_bar_window(phase, platform));
    steps
}

/// Answers a change of the popup window's focus.
pub fn focus_changed(focused: bool) -> (steps: Vec<WindowStep>)
    ensures
        steps@ == spec_focus_changed(focused),
{
    let mut steps: Vec<WindowStep> = Vec::new();
    if !focused {
        steps.push(WindowStep { action: WindowAction::Hide, required: false });
    }
    assert(steps@ =~= spec_focus_changed(focused));
    steps
}

/// Dismisses the popup at the user's request. `state` is `None` when the
/// lock that guards it could not be taken, `own_pid` is the id of this
/// process, and `window_exists` says whether the popup window was built.
pub fn dismiss_command_bar(
    state: Option<&CommandBarShortcutState>,
    own_pid: u32,
    window_exists: bool,
) -> (steps: Vec<WindowStep>)
    ensures
        steps@ == spec_dismiss_command_bar(viewed(state), own_pid as int, window_exists),
{
    let restores = match state {
        Some(state) => {
            let stored: i32 = state.previous_frontmost_pid();
            state.platform().tracks_frontmost() && stored > 0 && stored as i64 != own_pid as i64
        },
        None => false,
    };
    let mut steps: Vec<WindowStep> = Vec::new();
    if restores {
        steps.push(WindowStep { action: WindowAction::HideApplication, required: false });
    }
    if window_exists {
        steps.push(WindowStep { action: WindowAction::Hide, required: false });
    }
    assert(steps@ =~= spec_dismiss_command_bar(viewed(state), own_pid as int, window_exists));
    steps
}

} // verus!
