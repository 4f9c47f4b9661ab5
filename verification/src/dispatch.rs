//! The bind dispatcher: resolves a dispatched remote code against the bind
//! table and plans the commands each matching bind asks for.
//!
//! A global mouse-mode flag acts as a modal gate: while it is on, media
//! actions are inert; while it is off, mouse movement, scroll and click
//! actions are inert. Only the dedicated toggle action flips the flag.

use vstd::prelude::*;
use crate::binds::Action;
use crate::binds::ActionView;
use crate::binds::Bind;
use crate::binds::BindView;
use crate::browser::normalize_url;
use crate::browser::spec_normalize_url;
use crate::commands::Command;
use crate::commands::CommandView;
use crate::commands::move_step;
use crate::commands::scroll_step;
use crate::commands::spec_move_step;
use crate::commands::spec_scroll_step;
use crate::commands::spec_volume_down_step;
use crate::commands::spec_volume_up_step;
use crate::commands::volume_down_step;
use crate::commands::volume_up_step;
use crate::keys::Key;
use crate::strutil::str_eq;

verus! {

/// Whether an action is a media action, all of which are inert while mouse
/// mode is on.
pub open spec fn is_media_action(a: ActionView) -> bool {
    ||| a is MediaSwitchDevice
    ||| a is MediaPlayPause
    ||| a is MediaNextTrack
    ||| a is MediaPrevTrack
    ||| a is MediaStop
    ||| a is MediaMuteUnmute
    ||| a is MediaVolumeUp
    ||| a is MediaVolumeDown
}

/// Whether an action moves, scrolls or clicks the pointer, all of which are
/// inert while mouse mode is off. The mode toggle itself is not gated.
pub open spec fn is_mouse_motion(a: ActionView) -> bool {
    ||| a is MouseLeft
    ||| a is MouseRight
    ||| a is MouseUp
    ||| a is MouseDown
    ||| a is MouseClick
    ||| a is MouseScrollUp
    ||| a is MouseScrollDown
}

/// The commands one action plans, and the mouse mode left behind.
///
/// Media actions are dropped while mouse mode is on; mouse motion is dropped
/// while it is off; the toggle flips the mode and plans nothing; keyboard,
/// browser and power actions are never gated.
pub open spec fn spec_plan_action(a: ActionView, repeating: bool, mouse_mode: bool) -> (Seq<
    CommandView,
>, bool) {
    match a {
        ActionView::MediaSwitchDevice => (
            media_gated(mouse_mode, seq![CommandView::SwitchAudioDevice]),
            mouse_mode,
        ),
        ActionView::MediaPlayPause => (
            media_gated(mouse_mode, seq![CommandView::TapKey(Key::PlayPause)]),
            mouse_mode,
        ),
        ActionView::MediaNextTrack => (
            media_gated(mouse_mode, seq![CommandView::TapKey(Key::NextTrack)]),
            mouse_mode,
        ),
        ActionView::MediaPrevTrack => (
            media_gated(mouse_mode, seq![CommandView::TapKey(Key::PrevTrack)]),
            mouse_mode,
        ),
        ActionView::MediaStop => (
            media_gated(mouse_mode, seq![CommandView::TapKey(Key::Stop)]),
            mouse_mode,
        ),
        ActionView::MediaMuteUnmute => (
            media_gated(
                mouse_mode,
                seq![CommandView::ToggleAudioMute, CommandView::ToggleMicroMute],
            ),
            mouse_mode,
        ),
        ActionView::MediaVolumeUp => (
            media_gated(mouse_mode, seq![CommandView::VolumeUp(spec_volume_up_step(repeating))]),
            mouse_mode,
        ),
        ActionView::MediaVolumeDown => (
            media_gated(
                mouse_mode,
                seq![CommandView::VolumeDown(spec_volume_down_step(repeating))],
            ),
            mouse_mode,
        ),
        ActionView::KeyboardPress(keys) => (seq![CommandView::PressShortcut(keys)], mouse_mode),
        ActionView::MouseOnOff => (Seq::empty(), !mouse_mode),
        ActionView::MouseLeft => (
            mouse_gated(
                mouse_mode,
                seq![CommandView::MoveMouse(-spec_move_step(repeating), 0)],
            ),
            mouse_mode,
        ),
        ActionView::MouseRight => (
            mouse_gated(mouse_mode, seq![CommandView::MoveMouse(spec_move_step(repeating), 0)]),
            mouse_mode,
        ),
        ActionView::MouseUp => (
            mouse_gated(mouse_mode, seq![CommandView::MoveMouse(0, -spec_move_step(repeating))]),
            mouse_mode,
        ),
        ActionView::MouseDown => (
            mouse_gated(mouse_mode, seq![CommandView::MoveMouse(0, spec_move_step(repeating))]),
            mouse_mode,
        ),
        ActionView::MouseClick => (mouse_gated(mouse_mode, seq![CommandView::ClickLeft]), mouse_mode),
        ActionView::MouseScrollUp => (
            mouse_gated(mouse_mode, seq![CommandView::Scroll(-spec_scroll_step(repeating))]),
            mouse_mode,
        ),
        ActionView::MouseScrollDown => (
            mouse_gated(mouse_mode, seq![CommandView::Scroll(spec_scroll_step(repeating))]),
            mouse_mode,
        ),
        ActionView::BrowserOpen(url) => (
            seq![CommandView::OpenUrl(spec_normalize_url(url))],
            mouse_mode,
        ),
        ActionView::BrowserOpenNewTab => (
            seq![CommandView::PressShortcut(seq![Key::Ctrl, Key::T])],
            mouse_mode,
        ),
        ActionView::BrowserReopenTab => (
            seq![CommandView::PressShortcut(seq![Key::Ctrl, Key::Shift, Key::T])],
            mouse_mode,
        ),
        ActionView::BrowserSwitchTab => (
            seq![CommandView::PressShortcut(seq![Key::Ctrl, Key::Tab])],
            mouse_mode,
        ),
        ActionView::BrowserCloseTab => (
            seq![CommandView::PressShortcut(seq![Key::Ctrl, Key::W])],
            mouse_mode,
        ),
        ActionView::BrowserHistoryBack => (
            seq![CommandView::PressShortcut(seq![Key::Alt, Key::Left])],
            mouse_mode,
        ),
        ActionView::BrowserHistoryForward => (
            seq![CommandView::PressShortcut(seq![Key::Alt, Key::Right])],
            mouse_mode,
        ),
        ActionView::BrowserBookmarkPage => (
            seq![
                CommandView::PressShortcut(seq![Key::Ctrl, Key::D]),
                CommandView::PressShortcut(seq![Key::Enter]),
            ],
            mouse_mode,
        ),
        ActionView::BrowserZoomIn => (
            seq![CommandView::PressShortcut(seq![Key::Ctrl, Key::Equal])],
            mouse_mode,
        ),
        ActionView::BrowserZoomOut => (
            seq![CommandView::PressShortcut(seq![Key::Ctrl, Key::Minus])],
            mouse_mode,
        ),
        ActionView::WindowsExit => (seq![CommandView::LogOff], mouse_mode),
        ActionView::WindowsSleep => (seq![CommandView::SleepMachine], mouse_mode),
        ActionView::WindowsPowerOff => (seq![CommandView::PowerOff], mouse_mode),
        ActionView::WindowsSwitchTab => (
            seq![CommandView::PressShortcut(seq![Key::Ctrl, Key::Tab])],
            mouse_mode,
        ),
    }
}

/// Media commands are dropped while mouse mode is on.
pub open spec fn media_gated(mouse_mode: bool, cmds: Seq<CommandView>) -> Seq<CommandView> {
    if mouse_mode {
        Seq::empty()
    } else {
        cmds
    }
}

/// Mouse commands are dropped while mouse mode is off.
pub open spec fn mouse_gated(mouse_mode: bool, cmds: Seq<CommandView>) -> Seq<CommandView> {
    if mouse_mode {
        cmds
    } else {
        Seq::empty()
    }
}

/// Law: while mouse mode is off a mouse movement, scroll or click action
/// plans no commands; while it is on, a media action plans none. The mode
/// itself changes only under the toggle action.
pub proof fn lemma_mouse_mode_gating(a: ActionView, repeating: bool)
    ensures
        is_mouse_motion(a) ==> spec_plan_action(a, repeating, false).0 =~= Seq::<
            CommandView,
        >::empty(),
        is_media_action(a) ==> spec_plan_action(a, repeating, true).0 =~= Seq::<
            CommandView,
        >::empty(),
        forall|mode: bool| a !is MouseOnOff ==> #[trigger] spec_plan_action(
            a,
            repeating,
            mode,
        ).1 == mode,
{
}

/// Copies a key sequence.
fn copy_keys(keys: &Vec<Key>) -> (r: Vec<Key>)
    ensures
        r@ == keys@,
{
    let mut r: Vec<Key> = Vec::new();
    let mut i: usize = 0;
    while i < keys.len()
        invariant
            i <= keys@.len(),
            r@ == keys@.subrange(0, i as int),
        decreases keys@.len() - i,
    {
        r.push(keys[i]);
        assert(r@ =~= keys@.subrange(0, i + 1 as int));
        i = i + 1;
    }
    proof {
        assert(r@ =~= keys@);
    }
    r
}

/// Plans the commands for one action under the current repeating flag and
/// mouse mode, and returns the mouse mode left behind.
pub fn plan_action(action: &Action, repeating: bool, mouse_mode: bool) -> (r: (Vec<Command>, bool))
    ensures
        r.0@.map_values(|c: Command| c@) =~~= spec_plan_action(action@, repeating, mouse_mode).0,
        r.1 == spec_plan_action(action@, repeating, mouse_mode).1,
        !mouse_mode && is_mouse_motion(action@) ==> r.0@.len() == 0,
        mouse_mode && is_media_action(action@) ==> r.0@.len() == 0,
{
    match action {
        Action::MediaSwitchDevice => {
            if mouse_mode {
                (Vec::new(), mouse_mode)
            } else {
                (vec![Command::SwitchAudioDevice], mouse_mode)
            }
        },
        Action::MediaPlayPause => {
            if mouse_mode {
                (Vec::new(), mouse_mode)
            } else {
                (vec![Command::TapKey(Key::PlayPause)], mouse_mode)
            }
        },
        Action::MediaNextTrack => {
            if mouse_mode {
                (Vec::new(), mouse_mode)
            } else {
                (vec![Command::TapKey(Key::NextTrack)], mouse_mode)
            }
        },
        Action::MediaPrevTrack => {
            if mouse_mode {
                (Vec::new(), mouse_mode)
            } else {
                (vec![Command::TapKey(Key::PrevTrack)], mouse_mode)
            }
        },
        Action::MediaStop => {
            if mouse_mode {
                (Vec::new(), mouse_mode)
            } else {
                (vec![Command::TapKey(Key::Stop)], mouse_mode)
            }
        },
        Action::MediaMuteUnmute => {
            if mouse_mode {
                (Vec::new(), mouse_mode)
            } else {
                (vec![Command::ToggleAudioMute, Command::ToggleMicroMute], mouse_mode)
            }
        },
        Action::MediaVolumeUp => {
            if mouse_mode {
                (Vec::new(), mouse_mode)
            } else {
                (vec![Command::VolumeUp(volume_up_step(repeating))], mouse_mode)
            }
        },
        Action::MediaVolumeDown => {
            if mouse_mode {
                (Vec::new(), mouse_mode)
            } else {
                (vec![Command::VolumeDown(volume_down_step(repeating))], mouse_mode)
            }
        },
        Action::KeyboardPress(keys) => (vec![Command::PressShortcut(copy_keys(keys))], mouse_mode),
        Action::MouseOnOff => (Vec::new(), !mouse_mode),
        Action::MouseLeft => {
            if mouse_mode {
                let step = -move_step(repeating);
                (vec![Command::MoveMouse(step, 0)], mouse_mode)
            } else {
                (Vec::new(), mouse_mode)
            }
        },
        Action::MouseRight => {
            if mouse_mode {
                (vec![Command::MoveMouse(move_step(repeating), 0)], mouse_mode)
            } else {
                (Vec::new(), mouse_mode)
            }
        },
        Action::MouseUp => {
            if mouse_mode {
                let step = -move_step(repeating);
                (vec![Command::MoveMouse(0, step)], mouse_mode)
            } else {
                (Vec::new(), mouse_mode)
            }
        },
        Action::MouseDown => {
            if mouse_mode {
                (vec![Command::MoveMouse(0, move_step(repeating))], mouse_mode)
            } else {
                (Vec::new(), mouse_mode)
            }
        },
        Action::MouseClick => {
            if mouse_mode {
                (vec![Command::ClickLeft], mouse_mode)
            } else {
                (Vec::new(), mouse_mode)
            }
        },
        Action::MouseScrollUp => {
            if mouse_mode {
                let step = -scroll_step(repeating);
                (vec![Command::Scroll(step)], mouse_mode)
            } else {
                (Vec::new(), mouse_mode)
            }
        },
        Action::MouseScrollDown => {
            if mouse_mode {
                (vec![Command::Scroll(scroll_step(repeating))], mouse_mode)
            } else {
                (Vec::new(), mouse_mode)
            }
        },
        Action::BrowserOpen(url) => (
            vec![Command::OpenUrl(normalize_url(url.as_str()))],
            mouse_mode,
        ),
        Action::BrowserOpenNewTab => (
            vec![Command::PressShortcut(vec![Key::Ctrl, Key::T])],
            mouse_mode,
        ),
        Action::BrowserReopenTab => (
            vec![Command::PressShortcut(vec![Key::Ctrl, Key::Shift, Key::T])],
            mouse_mode,
        ),
        Action::BrowserSwitchTab => (
            vec![Command::PressShortcut(vec![Key::Ctrl, Key::Tab])],
            mouse_mode,
        ),
        Action::BrowserCloseTab => (
            vec![Command::PressShortcut(vec![Key::Ctrl, Key::W])],
            mouse_mode,
        ),
        Action::BrowserHistoryBack => (
            vec![Command::PressShortcut(vec![Key::Alt, Key::Left])],
            mouse_mode,
        ),
        Action::BrowserHistoryForward => (
            vec![Command::PressShortcut(vec![Key::Alt, Key::Right])],
            mouse_mode,
        ),
        Action::BrowserBookmarkPage => (
            vec![
                Command::PressShortcut(vec![Key::Ctrl, Key::D]),
                Command::PressShortcut(vec![Key::Enter]),
            ],
            mouse_mode,
        ),
        Action::BrowserZoomIn => (
            vec![Command::PressShortcut(vec![Key::Ctrl, Key::Equal])],
            mouse_mode,
        ),
        Action::BrowserZoomOut => (
            vec![Command::PressShortcut(vec![Key::Ctrl, Key::Minus])],
            mouse_mode,
        ),
        Action::WindowsExit => (vec![Command::LogOff], mouse_mode),
        Action::WindowsSleep => (vec![Command::SleepMachine], mouse_mode),
        Action::WindowsPowerOff => (vec![Command::PowerOff], mouse_mode),
        Action::WindowsSwitchTab => (
            vec![Command::PressShortcut(vec![Key::Ctrl, Key::Tab])],
            mouse_mode,
        ),
    }
}

/// Whether a matched bind is executed under the repeating flag: a bind with
/// repeat disabled is skipped entirely while the flag is set.
pub fn should_execute(bind: &Bind, repeating: bool) -> (r: bool)
    ensures
        r == !(repeating && !bind.repeat),
{
    !(repeating && !bind.repeat)
}

/// The commands a whole dispatch plans: every bind whose code matches and
/// whose repeat gate admits the press contributes its commands, in snapshot
/// order, with the mouse mode threaded through.
pub open spec fn spec_dispatch(
    binds: Seq<BindView>,
    code: Seq<char>,
    repeating: bool,
    mouse_mode: bool,
) -> (Seq<CommandView>, bool)
    decreases binds.len(),
{
    if binds.len() == 0 {
        (Seq::empty(), mouse_mode)
    } else {
        let first = binds[0];
        let rest = binds.drop_first();
        if first.code == code && !(repeating && !first.repeat) {
            let planned = spec_plan_action(first.action, repeating, mouse_mode);
            let tail = spec_dispatch(rest, code, repeating, planned.1);
            (planned.0 + tail.0, tail.1)
        } else {
            spec_dispatch(rest, code, repeating, mouse_mode)
        }
    }
}

/// Law: a bind whose code differs from the dispatched code contributes
/// nothing; a matching bind with repeat disabled contributes nothing on a
/// held press but its planned commands on a fresh press; a matching bind
/// with repeat enabled contributes its planned commands in both cases.
pub proof fn lemma_repeat_gate(b: BindView, code: Seq<char>, repeating: bool, mouse_mode: bool)
    ensures
        b.code != code ==> spec_dispatch(seq![b], code, repeating, mouse_mode).0 =~= Seq::<
            CommandView,
        >::empty() && spec_dispatch(seq![b], code, repeating, mouse_mode).1 == mouse_mode,
        b.code == code && repeating && !b.repeat ==> spec_dispatch(
            seq![b],
            code,
            repeating,
            mouse_mode,
        ).0 =~= Seq::<CommandView>::empty() && spec_dispatch(
            seq![b],
            code,
            repeating,
            mouse_mode,
        ).1 == mouse_mode,
        b.code == code && (b.repeat || !repeating) ==> spec_dispatch(
            seq![b],
            code,
            repeating,
            mouse_mode,
        ).0 =~~= spec_plan_action(b.action, repeating, mouse_mode).0 && spec_dispatch(
            seq![b],
            code,
            repeating,
            mouse_mode,
        ).1 == spec_plan_action(b.action, repeating, mouse_mode).1,
{
    let s = seq![b];
    assert(s.len() == 1 && s[0] == b);
    assert(s.drop_first() =~= Seq::<BindView>::empty());
    if b.code == code && !(repeating && !b.repeat) {
        let planned = spec_plan_action(b.action, repeating, mouse_mode);
        assert(spec_dispatch(Seq::<BindView>::empty(), code, repeating, planned.1) == (
            Seq::<CommandView>::empty(),
            planned.1,
        ));
        assert(planned.0 + Seq::<CommandView>::empty() =~= planned.0);
    } else {
        assert(spec_dispatch(Seq::<BindView>::empty(), code, repeating, mouse_mode) == (
            Seq::<CommandView>::empty(),
            mouse_mode,
        ));
    }
}

/// Resolves a dispatched code against the bind table: every matching,
/// repeat-admitted bind is planned in snapshot order. Returns the planned
/// commands and the mouse mode left behind.
pub fn dispatch_code(binds: &Vec<Bind>, code: &str, repeating: bool, mouse_mode: bool) -> (r: (
    Vec<Command>,
    bool,
))
    ensures
        r.0@.map_values(|c: Command| c@) =~~= spec_dispatch(
            binds@.map_values(|b: Bind| b@),
            code@,
            repeating,
            mouse_mode,
        ).0,
        r.1 == spec_dispatch(binds@.map_values(|b: Bind| b@), code@, repeating, mouse_mode).1,
{
    let ghost bv = binds@.map_values(|b: Bind| b@);
    let ghost full = spec_dispatch(bv, code@, repeating, mouse_mode);
    let mut out: Vec<Command> = Vec::new();
    let mut mode = mouse_mode;
    let mut i: usize = 0;
    proof {
        assert(bv.skip(0) =~= bv);
        assert(out@.map_values(|c: Command| c@) + full.0 =~~= full.0);
    }
    while i < binds.len()
        invariant
            i <= binds@.len(),
            bv == binds@.map_values(|b: Bind| b@),
            full == spec_dispatch(bv, code@, repeating, mouse_mode),
            full.0 =~~= out@.map_values(|c: Command| c@) + spec_dispatch(
                bv.skip(i as int),
                code@,
                repeating,
                mode,
            ).0,
            full.1 == spec_dispatch(bv.skip(i as int), code@, repeating, mode).1,
        decreases binds@.len() - i,
    {
        let ghost before = spec_dispatch(bv.skip(i as int), code@, repeating, mode);
        proof {
            assert(bv.skip(i as int).len() > 0);
            assert(bv.skip(i as int)[0] == bv[i as int]);
            assert(bv.skip(i as int).drop_first() =~= bv.skip(i + 1 as int));
        }
        let bind = &binds[i];
        if str_eq(bind.code.as_str(), code) && should_execute(bind, repeating) {
            let (mut cmds, m2) = plan_action(&bind.action, repeating, mode);
            proof {
                assert(out@.map_values(|c: Command| c@) + cmds@.map_values(|c: Command| c@)
                    =~~= (out@ + cmds@).map_values(|c: Command| c@));
            }
            out.append(&mut cmds);
            mode = m2;
        }
        i = i + 1;
    }
    proof {
        assert(bv.skip(i as int) =~= Seq::<BindView>::empty());
        assert(out@.map_values(|c: Command| c@) + Seq::<CommandView>::empty() =~~= out@.map_values(
            |c: Command| c@,
        ));
    }
    (out, mode)
}

} // verus!
