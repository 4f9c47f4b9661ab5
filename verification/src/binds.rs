//! The action vocabulary and the bind record mapping a remote code to an
//! action.

use vstd::prelude::*;
use crate::keys::Key;

verus! {

/// An action a remote bind can trigger, grouped by domain.
///
/// All variants but two are parameterless; `KeyboardPress` carries the keys
/// of a shortcut in press order, and `BrowserOpen` carries a URL.
#[derive(Debug, Clone, PartialEq)]
pub enum Action {
    MediaSwitchDevice,
    MediaPlayPause,
    MediaNextTrack,
    MediaPrevTrack,
    MediaStop,
    MediaMuteUnmute,
    MediaVolumeUp,
    MediaVolumeDown,
    KeyboardPress(Vec<Key>),
    MouseOnOff,
    MouseLeft,
    MouseRight,
    MouseUp,
    MouseDown,
    MouseClick,
    MouseScrollUp,
    MouseScrollDown,
    BrowserOpen(String),
    BrowserOpenNewTab,
    BrowserReopenTab,
    BrowserSwitchTab,
    BrowserCloseTab,
    BrowserHistoryBack,
    BrowserHistoryForward,
    BrowserBookmarkPage,
    BrowserZoomIn,
    BrowserZoomOut,
    WindowsExit,
    WindowsSleep,
    WindowsPowerOff,
    WindowsSwitchTab,
}

/// The mathematical model of an [`Action`]: payloads become sequences.
#[verifier::ext_equal]
pub enum ActionView {
    MediaSwitchDevice,
    MediaPlayPause,
    MediaNextTrack,
    MediaPrevTrack,
    MediaStop,
    MediaMuteUnmute,
    MediaVolumeUp,
    MediaVolumeDown,
    KeyboardPress(Seq<Key>),
    MouseOnOff,
    MouseLeft,
    MouseRight,
    MouseUp,
    MouseDown,
    MouseClick,
    MouseScrollUp,
    MouseScrollDown,
    BrowserOpen(Seq<char>),
    BrowserOpenNewTab,
    BrowserReopenTab,
    BrowserSwitchTab,
    BrowserCloseTab,
    BrowserHistoryBack,
    BrowserHistoryForward,
    BrowserBookmarkPage,
    BrowserZoomIn,
    BrowserZoomOut,
    WindowsExit,
    WindowsSleep,
    WindowsPowerOff,
    WindowsSwitchTab,
}

impl View for Action {
    type V = ActionView;

    open spec fn view(&self) -> ActionView {
        match self {
            Action::MediaSwitchDevice => ActionView::MediaSwitchDevice,
            Action::MediaPlayPause => ActionView::MediaPlayPause,
            Action::MediaNextTrack => ActionView::MediaNextTrack,
            Action::MediaPrevTrack => ActionView::MediaPrevTrack,
            Action::MediaStop => ActionView::MediaStop,
            Action::MediaMuteUnmute => ActionView::MediaMuteUnmute,
            Action::MediaVolumeUp => ActionView::MediaVolumeUp,
            Action::MediaVolumeDown => ActionView::MediaVolumeDown,
            Action::KeyboardPress(keys) => ActionView::KeyboardPress(keys@),
            Action::MouseOnOff => ActionView::MouseOnOff,
            Action::MouseLeft => ActionView::MouseLeft,
            Action::MouseRight => ActionView::MouseRight,
            Action::MouseUp => ActionView::MouseUp,
            Action::MouseDown => ActionView::MouseDown,
            Action::MouseClick => ActionView::MouseClick,
            Action::MouseScrollUp => ActionView::MouseScrollUp,
            Action::MouseScrollDown => ActionView::MouseScrollDown,
            Action::BrowserOpen(url) => ActionView::BrowserOpen(url@),
            Action::BrowserOpenNewTab => ActionView::BrowserOpenNewTab,
            Action::BrowserReopenTab => ActionView::BrowserReopenTab,
            Action::BrowserSwitchTab => ActionView::BrowserSwitchTab,
            Action::BrowserCloseTab => ActionView::BrowserCloseTab,
            Action::BrowserHistoryBack => ActionView::BrowserHistoryBack,
            Action::BrowserHistoryForward => ActionView::BrowserHistoryForward,
            Action::BrowserBookmarkPage => ActionView::BrowserBookmarkPage,
            Action::BrowserZoomIn => ActionView::BrowserZoomIn,
            Action::BrowserZoomOut => ActionView::BrowserZoomOut,
            Action::WindowsExit => ActionView::WindowsExit,
            Action::WindowsSleep => ActionView::WindowsSleep,
            Action::WindowsPowerOff => ActionView::WindowsPowerOff,
            Action::WindowsSwitchTab => ActionView::WindowsSwitchTab,
        }
    }
}

/// Every action, with empty payloads for the two parameterized variants, in
/// the order the action catalogue offers them.
pub open spec fn spec_all_actions() -> Seq<ActionView> {
    seq![
        ActionView::KeyboardPress(Seq::empty()),
        ActionView::BrowserOpen(Seq::empty()),
        ActionView::MediaSwitchDevice,
        ActionView::MediaPlayPause,
        ActionView::MediaNextTrack,
        ActionView::MediaPrevTrack,
        ActionView::MediaStop,
        ActionView::MediaMuteUnmute,
        ActionView::MediaVolumeUp,
        ActionView::MediaVolumeDown,
        ActionView::MouseOnOff,
        ActionView::MouseLeft,
        ActionView::MouseRight,
        ActionView::MouseUp,
        ActionView::MouseDown,
        ActionView::MouseClick,
        ActionView::MouseScrollUp,
        ActionView::MouseScrollDown,
        ActionView::BrowserOpenNewTab,
        ActionView::BrowserReopenTab,
        ActionView::BrowserSwitchTab,
        ActionView::BrowserCloseTab,
        ActionView::BrowserHistoryBack,
        ActionView::BrowserHistoryForward,
        ActionView::BrowserBookmarkPage,
        ActionView::BrowserZoomIn,
        ActionView::BrowserZoomOut,
        ActionView::WindowsExit,
        ActionView::WindowsSleep,
        ActionView::WindowsPowerOff,
        ActionView::WindowsSwitchTab,
    ]
}

impl Action {
    /// Returns the full action catalogue.
    pub fn get_all() -> (r: Vec<Action>)
        ensures
            r@.map_values(|a: Action| a@) =~~= spec_all_actions(),
    {
        let r = vec![
            Action::KeyboardPress(Vec::new()),
            Action::BrowserOpen(String::new()),
            Action::MediaSwitchDevice,
            Action::MediaPlayPause,
            Action::MediaNextTrack,
            Action::MediaPrevTrack,
            Action::MediaStop,
            Action::MediaMuteUnmute,
            Action::MediaVolumeUp,
            Action::MediaVolumeDown,
            Action::MouseOnOff,
            Action::MouseLeft,
            Action::MouseRight,
            Action::MouseUp,
            Action::MouseDown,
            Action::MouseClick,
            Action::MouseScrollUp,
            Action::MouseScrollDown,
            Action::BrowserOpenNewTab,
            Action::BrowserReopenTab,
            Action::BrowserSwitchTab,
            Action::BrowserCloseTab,
            Action::BrowserHistoryBack,
            Action::BrowserHistoryForward,
            Action::BrowserBookmarkPage,
            Action::BrowserZoomIn,
            Action::BrowserZoomOut,
            Action::WindowsExit,
            Action::WindowsSleep,
            Action::WindowsPowerOff,
            Action::WindowsSwitchTab,
        ];
        proof {
            assert(r@.map_values(|a: Action| a@) =~~= spec_all_actions());
        }
        r
    }
}

/// A persisted mapping from a remote code to an action.
///
/// Identity is `id`; `code` need not be unique, and every bind whose code
/// matches a dispatched code is executed. `repeat` says whether the bind may
/// fire again while the button is held.
#[derive(Debug, Clone, PartialEq)]
pub struct Bind {
    pub id: String,
    pub code: String,
    pub action: Action,
    pub repeat: bool,
}

/// The mathematical model of a [`Bind`].
#[verifier::ext_equal]
pub struct BindView {
    pub id: Seq<char>,
    pub code: Seq<char>,
    pub action: ActionView,
    pub repeat: bool,
}

impl View for Bind {
    type V = BindView;

    open spec fn view(&self) -> BindView {
        BindView { id: self.id@, code: self.code@, action: self.action@, repeat: self.repeat }
    }
}

} // verus!
