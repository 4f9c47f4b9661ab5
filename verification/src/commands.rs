//! The narrow interface between the dispatcher and the machinery that
//! performs actions: a dispatched bind is planned as a sequence of commands.
//!
//! Each command is one primitive of the emulation capability, the media
//! subsystem, the browser, or the operating system's power facilities.

use vstd::prelude::*;
use crate::keys::Key;

verus! {

/// One primitive operation that executing a bind asks for.
#[derive(Debug, Clone, PartialEq)]
pub enum Command {
    /// Switch the active audio device to the next one in cyclic order.
    SwitchAudioDevice,
    /// Tap (press and release) a single key.
    TapKey(Key),
    /// Toggle mute of the active audio device.
    ToggleAudioMute,
    /// Toggle mute of the active microphone device.
    ToggleMicroMute,
    /// Raise the audio volume by the given step.
    VolumeUp(i32),
    /// Lower the audio volume by the given step.
    VolumeDown(i32),
    /// Press all keys in order, hold briefly, then release them in order.
    PressShortcut(Vec<Key>),
    /// Move the pointer by a relative delta on each axis.
    MoveMouse(i32, i32),
    /// Click the left mouse button.
    ClickLeft,
    /// Scroll vertically by the given delta.
    Scroll(i32),
    /// Open the (already normalized) URL in the default browser.
    OpenUrl(String),
    /// Log the user off.
    LogOff,
    /// Put the machine to sleep.
    SleepMachine,
    /// Power the machine off.
    PowerOff,
}

/// The mathematical model of a [`Command`].
#[verifier::ext_equal]
pub enum CommandView {
    SwitchAudioDevice,
    TapKey(Key),
    ToggleAudioMute,
    ToggleMicroMute,
    VolumeUp(int),
    VolumeDown(int),
    PressShortcut(Seq<Key>),
    MoveMouse(int, int),
    ClickLeft,
    Scroll(int),
    OpenUrl(Seq<char>),
    LogOff,
    SleepMachine,
    PowerOff,
}

impl View for Command {
    type V = CommandView;

    open spec fn view(&self) -> CommandView {
        match self {
            Command::SwitchAudioDevice => CommandView::SwitchAudioDevice,
            Command::TapKey(k) => CommandView::TapKey(*k),
            Command::ToggleAudioMute => CommandView::ToggleAudioMute,
            Command::ToggleMicroMute => CommandView::ToggleMicroMute,
            Command::VolumeUp(s) => CommandView::VolumeUp(*s as int),
            Command::VolumeDown(s) => CommandView::VolumeDown(*s as int),
            Command::PressShortcut(keys) => CommandView::PressShortcut(keys@),
            Command::MoveMouse(dx, dy) => CommandView::MoveMouse(*dx as int, *dy as int),
            Command::ClickLeft => CommandView::ClickLeft,
            Command::Scroll(d) => CommandView::Scroll(*d as int),
            Command::OpenUrl(u) => CommandView::OpenUrl(u@),
            Command::LogOff => CommandView::LogOff,
            Command::SleepMachine => CommandView::SleepMachine,
            Command::PowerOff => CommandView::PowerOff,
        }
    }
}

/// Pointer-move distance in pixels: a held press moves farther than a fresh
/// one.
pub open spec fn spec_move_step(repeating: bool) -> int {
    if repeating {
        70
    } else {
        30
    }
}

/// Scroll distance: a held press scrolls farther than a fresh one.
pub open spec fn spec_scroll_step(repeating: bool) -> int {
    if repeating {
        5
    } else {
        2
    }
}

/// Volume-raise step: a held press raises more than a fresh one.
pub open spec fn spec_volume_up_step(repeating: bool) -> int {
    if repeating {
        5
    } else {
        2
    }
}

/// Volume-lower step: a held press lowers more than a fresh one.
pub open spec fn spec_volume_down_step(repeating: bool) -> int {
    if repeating {
        3
    } else {
        1
    }
}

/// Pointer-move distance selected by the repeating flag.
pub fn move_step(repeating: bool) -> (r: i32)
    ensures
        r as int == spec_move_step(repeating),
{
    if repeating {
        70
    } else {
        30
    }
}

/// Scroll distance selected by the repeating flag.
pub fn scroll_step(repeating: bool) -> (r: i32)
    ensures
        r as int == spec_scroll_step(repeating),
{
    if repeating {
        5
    } else {
        2
    }
}

/// Volume-raise step selected by the repeating flag.
pub fn volume_up_step(repeating: bool) -> (r: i32)
    ensures
        r as int == spec_volume_up_step(repeating),
{
    if repeating {
        5
    } else {
        2
    }
}

/// Volume-lower step selected by the repeating flag.
pub fn volume_down_step(repeating: bool) -> (r: i32)
    ensures
        r as int == spec_volume_down_step(repeating),
{
    if repeating {
        3
    } else {
        1
    }
}

} // verus!
