//! The mouse-capture state machine: application mode, cursor visibility and
//! cursor lock mode move together, atomically, on edge-triggered inputs.
//!
//! The look and move controllers are only live while the cursor is captured;
//! the per-tick systems consult the application mode before doing anything.

use vstd::prelude::*;

verus! {

/// The outer application mode. `Start` is the mode before the first click on
/// the game surface; `InGame` is the captured, playing mode; `Menu` is the
/// released, settings mode.
#[derive(Clone, Copy, PartialEq, Eq, Structural, Debug)]
pub enum AppMode {
    Start,
    InGame,
    Menu,
}

/// The cursor lock mode the window service is asked for. `Free` leaves the
/// cursor alone; `Confined` keeps it inside the window; `Locked` pins it.
#[derive(Clone, Copy, PartialEq, Eq, Structural, Debug)]
pub enum GrabMode {
    Free,
    Confined,
    Locked,
}

/// Which lock mode the running platform supports; a capability switch, not a
/// logic branch. Substituting the best available mode never fails a
/// transition.
#[derive(Clone, Copy, PartialEq, Eq, Structural, Debug)]
pub enum PlatformLock {
    Confines,
    Locks,
}

impl PlatformLock {
    /// The lock mode a capture applies on this platform.
    pub open spec fn grab_mode(self) -> GrabMode {
        match self {
            PlatformLock::Confines => GrabMode::Confined,
            PlatformLock::Locks => GrabMode::Locked,
        }
    }
}

/// The cursor flags the window service holds.
#[derive(Clone, Copy, PartialEq, Eq, Structural, Debug)]
pub struct CursorState {
    pub visible: bool,
    pub grab: GrabMode,
}

/// The whole capture machine: the application mode together with the cursor
/// flags it implies.
#[derive(Clone, Copy, PartialEq, Eq, Structural, Debug)]
pub struct CaptureMachine {
    pub mode: AppMode,
    pub cursor: CursorState,
}

/// Whether the cursor is captured: only the in-game mode captures.
pub open spec fn is_captured(mode: AppMode) -> bool {
    mode == AppMode::InGame
}

/// Capture/visibility atomicity: the cursor flags always agree with the
/// mode. Captured means hidden and confined or locked; released means
/// visible and free.
pub open spec fn cursor_consistent(m: CaptureMachine) -> bool {
    if is_captured(m.mode) {
        !m.cursor.visible && m.cursor.grab != GrabMode::Free
    } else {
        m.cursor.visible && m.cursor.grab == GrabMode::Free
    }
}

/// The mode after one tick of capture events. The toggle key flips between
/// the in-game and the menu mode; the first click on the game surface leaves
/// the start mode for the game, once, independent of the toggle key.
pub open spec fn mode_step(mode: AppMode, toggle: bool, click: bool) -> AppMode {
    match mode {
        AppMode::Start => if click {
            AppMode::InGame
        } else {
            AppMode::Start
        },
        AppMode::InGame => if toggle {
            AppMode::Menu
        } else {
            AppMode::InGame
        },
        AppMode::Menu => if toggle {
            AppMode::InGame
        } else {
            AppMode::Menu
        },
    }
}

/// The state machine preserves consistency: from any consistent state, any
/// combination of edge-triggered inputs leads to a consistent state. (The
/// transition function below realises exactly this step.)
pub proof fn lemma_capture_atomicity(m: CaptureMachine, toggle: bool, click: bool, p: PlatformLock)
    requires
        cursor_consistent(m),
    ensures
        ({
            let mode2 = mode_step(m.mode, toggle, click);
            let cursor2 = (CursorState {
                visible: !is_captured(mode2),
                grab: if is_captured(mode2) {
                    p.grab_mode()
                } else {
                    GrabMode::Free
                },
            });
            cursor_consistent((CaptureMachine { mode: mode2, cursor: cursor2 }))
        }),
{
}

impl CaptureMachine {
    /// The machine before anything happened: released, in the start mode.
    pub fn startup() -> (m: CaptureMachine)
        ensures
            m.mode == AppMode::Start,
            m.cursor.visible,
            m.cursor.grab == GrabMode::Free,
            cursor_consistent(m),
    {
        CaptureMachine {
            mode: AppMode::Start,
            cursor: CursorState { visible: true, grab: GrabMode::Free },
        }
    }

    /// Whether the per-tick look and move controllers are live.
    pub fn controllers_live(&self) -> (r: bool)
        ensures
            r == is_captured(self.mode),
    {
        match self.mode {
            AppMode::InGame => true,
            _ => false,
        }
    }
}

/// The instruction panel the interface shows for a mode. Which panel is up
/// always matches the mode the capture transition just produced, because the
/// transition runs before any rendering in the tick's order.
#[derive(Clone, Copy, PartialEq, Eq, Structural, Debug)]
pub enum InfoPanel {
    /// Ask for a click on the game surface.
    ClickToStart,
    /// Say how to close the menus.
    MenuHelp,
    /// List the look, move, camera and menu controls.
    GameControls,
}

/// The panel a mode calls for.
pub open spec fn panel_for(mode: AppMode) -> InfoPanel {
    match mode {
        AppMode::Start => InfoPanel::ClickToStart,
        AppMode::Menu => InfoPanel::MenuHelp,
        AppMode::InGame => InfoPanel::GameControls,
    }
}

/// Pick the instruction panel for the current mode, executably.
pub fn info_panel(mode: AppMode) -> (p: InfoPanel)
    ensures
        p == panel_for(mode),
{
    match mode {
        AppMode::Start => InfoPanel::ClickToStart,
        AppMode::Menu => InfoPanel::MenuHelp,
        AppMode::InGame => InfoPanel::GameControls,
    }
}

/// One tick of the capture machine, on the tick's just-pressed events.
/// Mode, visibility and lock mode change in one step: no caller can observe
/// a state where they disagree.
pub fn grab_mouse_system(
    machine: &mut CaptureMachine,
    toggle_pressed: bool,
    click_pressed: bool,
    platform: PlatformLock,
)
    requires
        cursor_consistent(*old(machine)),
        is_captured(old(machine).mode) ==> old(machine).cursor.grab == platform.grab_mode(),
    ensures
        final(machine).mode == mode_step(old(machine).mode, toggle_pressed, click_pressed),
        final(machine).cursor.visible == !is_captured(final(machine).mode),
        is_captured(final(machine).mode) ==> final(machine).cursor.grab == platform.grab_mode(),
        !is_captured(final(machine).mode) ==> final(machine).cursor.grab == GrabMode::Free,
        cursor_consistent(*final(machine)),
        !toggle_pressed && !click_pressed ==> *final(machine) == *old(machine),
{
    if !toggle_pressed && !click_pressed {
        return ;
    }
    let next_mode: AppMode = match machine.mode {
        AppMode::Start => if click_pressed {
            AppMode::InGame
        } else {
            AppMode::Start
        },
        AppMode::InGame => if toggle_pressed {
            AppMode::Menu
        } else {
            AppMode::InGame
        },
        AppMode::Menu => if toggle_pressed {
            AppMode::InGame
        } else {
            AppMode::Menu
        },
    };
    let captured: bool = match next_mode {
        AppMode::InGame => true,
        _ => false,
    };
    let grab: GrabMode = if captured {
        match platform {
            PlatformLock::Confines => GrabMode::Confined,
            PlatformLock::Locks => GrabMode::Locked,
        }
    } else {
        GrabMode::Free
    };
    machine.mode = next_mode;
    machine.cursor = CursorState { visible: !captured, grab };
}

} // verus!
