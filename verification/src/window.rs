//! What the messages of the overlay's main window ask for.
use vstd::prelude::*;

use crate::settings::lemma_neg_mod;

verus! {

pub const WM_DESTROY: u32 = 0x0002;

pub const WM_CONTEXTMENU: u32 = 0x007b;

pub const WM_COMMAND: u32 = 0x0111;

pub const WM_TIMER: u32 = 0x0113;

pub const WM_LBUTTONUP: u32 = 0x0202;

pub const WM_RBUTTONUP: u32 = 0x0205;

pub const WM_HOTKEY: u32 = 0x0312;

/// The message the tray icon sends: the first application message after `WM_APP`.
pub const WM_TRAY: u32 = 0x8001;

/// The hot key that turns the overlay off and on (Ctrl+Alt+H).
pub const HOTKEY_TOGGLE: i32 = 1;

/// The hot key that turns the spotlight off and on (Ctrl+Alt+S).
pub const HOTKEY_SPOT: i32 = 2;

pub const CMD_TOGGLE: u32 = 100;

pub const CMD_EXIT: u32 = 101;

pub const CMD_SETTINGS: u32 = 102;

pub const CMD_SPOT: u32 = 103;

/// What a message to the main window asks for.
#[derive(Clone, Copy, Debug, PartialEq, Eq, Structural)]
pub enum WindowAction {
    /// The frame timer: draw the highlight, the key strokes and the spotlight.
    Redraw,
    /// Turn the overlay off or on.
    ToggleHighlight,
    /// Turn the spotlight off or on.
    ToggleSpot,
    /// Show the tray icon's menu.
    TrayMenu,
    /// Open the settings window.
    OpenSettings,
    /// Close the main window, which ends the program.
    Exit,
    /// The main window is gone: remove the tray icon and quit.
    Quit,
    /// Handled, with nothing to do.
    Nothing,
    /// Not handled here: leave it to the default handling.
    Default,
}

/// The low 16 bits of `v`, as `(v as u32) & 0xffff` keeps them.
pub open spec fn low16(v: int) -> int {
    v % 0x1_0000
}

/// The low 32 bits of `v` read as a signed number, as `v as i32` keeps them.
pub open spec fn low32_signed(v: int) -> int {
    let u = v % 0x1_0000_0000;
    if u < 0x8000_0000 {
        u
    } else {
        u - 0x1_0000_0000
    }
}

/// The action a message `msg` with parameters `wparam` and `lparam` asks for.
pub open spec fn window_action_of(msg: u32, wparam: usize, lparam: isize) -> WindowAction {
    if msg == WM_TIMER {
        WindowAction::Redraw
    } else if msg == WM_HOTKEY {
        let id = low32_signed(wparam as int);
        if id == HOTKEY_TOGGLE {
            WindowAction::ToggleHighlight
        } else if id == HOTKEY_SPOT {
            WindowAction::ToggleSpot
        } else {
            WindowAction::Nothing
        }
    } else if msg == WM_TRAY {
        let ev = low16(lparam as int);
        if ev == WM_RBUTTONUP || ev == WM_CONTEXTMENU || ev == WM_LBUTTONUP {
            WindowAction::TrayMenu
        } else {
            WindowAction::Nothing
        }
    } else if msg == WM_COMMAND {
        let cmd = low16(wparam as int);
        if cmd == CMD_TOGGLE {
            WindowAction::ToggleHighlight
        } else if cmd == CMD_SPOT {
            WindowAction::ToggleSpot
        } else if cmd == CMD_SETTINGS {
            WindowAction::OpenSettings
        } else if cmd == CMD_EXIT {
            WindowAction::Exit
        } else {
            WindowAction::Nothing
        }
    } else if msg == WM_DESTROY {
        WindowAction::Quit
    } else {
        WindowAction::Default
    }
}

fn low16_isize(v: isize) -> (r: u32)
    ensures
        r == low16(v as int),
{
    if v >= 0 {
        ((v as u64) % 0x1_0000) as u32
    } else {
        let n = -(v as i128);
        let k = n % 0x1_0000;
        proof {
            lemma_neg_mod(v as int, 0x1_0000, k as int);
        }
        if k == 0 {
            0
        } else {
            (0x1_0000 - k) as u32
        }
    }
}

/// What a message to the main window asks for.
pub fn window_action(msg: u32, wparam: usize, lparam: isize) -> (r: WindowAction)
    ensures
        r == window_action_of(msg, wparam, lparam),
{
    if msg == WM_TIMER {
        WindowAction::Redraw
    } else if msg == WM_HOTKEY {
        let u = (wparam as u64) % 0x1_0000_0000;
        if u == 1 {
            WindowAction::ToggleHighlight
        } else if u == 2 {
            WindowAction::ToggleSpot
        } else {
            WindowAction::Nothing
        }
    } else if msg == WM_TRAY {
        let ev = low16_isize(lparam);
        if ev == WM_RBUTTONUP || ev == WM_CONTEXTMENU || ev == WM_LBUTTONUP {
            WindowAction::TrayMenu
        } else {
            WindowAction::Nothing
        }
    } else if msg == WM_COMMAND {
        let cmd = ((wparam as u64) % 0x1_0000) as u32;
        if cmd == CMD_TOGGLE {
            WindowAction::ToggleHighlight
        } else if cmd == CMD_SPOT {
            WindowAction::ToggleSpot
        } else if cmd == CMD_SETTINGS {
            WindowAction::OpenSettings
        } else if cmd == CMD_EXIT {
            WindowAction::Exit
        } else {
            WindowAction::Nothing
        }
    } else if msg == WM_DESTROY {
        WindowAction::Quit
    } else {
        WindowAction::Default
    }
}

/// The main window's messages: the timer redraws; the two hot keys toggle the
/// highlight and the spotlight; a right or left click on the tray icon, or its
/// context menu, opens the tray menu; the tray menu's commands toggle the
/// highlight or the spotlight, open the settings or exit; closing quits; any
/// other message goes to the default handling.
pub proof fn lemma_window_table(wparam: usize, lparam: isize, msg: u32)
    ensures
        window_action_of(WM_TIMER, wparam, lparam) == WindowAction::Redraw,
        window_action_of(WM_HOTKEY, 1, lparam) == WindowAction::ToggleHighlight,
        window_action_of(WM_HOTKEY, 2, lparam) == WindowAction::ToggleSpot,
        window_action_of(WM_HOTKEY, 3, lparam) == WindowAction::Nothing,
        window_action_of(WM_TRAY, wparam, 0x205) == WindowAction::TrayMenu,
        window_action_of(WM_TRAY, wparam, 0x202) == WindowAction::TrayMenu,
        window_action_of(WM_TRAY, wparam, 0x7b) == WindowAction::TrayMenu,
        window_action_of(WM_TRAY, wparam, 0x200) == WindowAction::Nothing,
        window_action_of(WM_COMMAND, CMD_TOGGLE as usize, lparam)
            == WindowAction::ToggleHighlight,
        window_action_of(WM_COMMAND, CMD_SPOT as usize, lparam) == WindowAction::ToggleSpot,
        window_action_of(WM_COMMAND, CMD_SETTINGS as usize, lparam) == WindowAction::OpenSettings,
        window_action_of(WM_COMMAND, CMD_EXIT as usize, lparam) == WindowAction::Exit,
        window_action_of(WM_DESTROY, wparam, lparam) == WindowAction::Quit,
        (msg != WM_TIMER && msg != WM_HOTKEY && msg != WM_TRAY && msg != WM_COMMAND && msg
            != WM_DESTROY) ==> window_action_of(msg, wparam, lparam) == WindowAction::Default,
{
}

} // verus!
