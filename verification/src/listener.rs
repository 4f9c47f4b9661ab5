//! The serial listener's per-session state: the debounce/repeat state
//! machine that classifies each decoded line, and the timers that gate the
//! periodic housekeeping refresh.
//!
//! Lines are processed strictly sequentially; at most one code is pending
//! interpretation at a time. All times are monotonic milliseconds supplied
//! by the caller.

use vstd::prelude::*;
use crate::strutil::str_eq;
use crate::strutil::trim_spaces;
use crate::strutil::trimmed;

verus! {

/// Milliseconds that must have elapsed since the previous dispatch before
/// the repeat sentinel is honored; rejects sentinel floods faster than the
/// remote's genuine auto-repeat rate.
pub const REPEAT_TIMEOUT_MS: u64 = 25;

/// Milliseconds of dispatch inactivity before housekeeping may run.
pub const ACTION_INTERVAL_MS: u64 = 1000;

/// Minimum milliseconds between two housekeeping refreshes.
pub const UPDATE_INTERVAL_MS: u64 = 5000;

/// Milliseconds the listener waits after a failed open before reconnecting.
pub const RECONNECT_BACKOFF_MS: u64 = 200;

/// Whether a trimmed line starts with the remote-code prefix `0x`.
pub open spec fn has_code_prefix(t: Seq<char>) -> bool {
    t.len() >= 2 && t[0] == '0' && t[1] == 'x'
}

/// Whether a trimmed line is the reserved code meaning "repeat the
/// previously dispatched code".
pub open spec fn is_sentinel(t: Seq<char>) -> bool {
    t == "0xFFFFFFFF"@
}

/// What the listener must do with one decoded line.
#[derive(Debug, Clone, PartialEq)]
pub enum LineEvent {
    /// The line was empty: keep listening.
    Idle,
    /// The line was not a remote code: the connection must be torn down.
    Violation,
    /// A sentinel that arrived before the repeat timeout, or with no code to
    /// repeat: dropped silently, with no dispatch and no notification.
    Dropped,
    /// Dispatch `code` against the bind table. `repeating` is set for a
    /// continued hold; `notify_pressed` asks for the one-time "code pressed"
    /// notification of a fresh press of a new code.
    Dispatch { code: String, repeating: bool, notify_pressed: bool },
}

/// Per-session dispatch state: the last dispatched code (empty when none)
/// and the timestamps that drive the repeat and housekeeping timers.
pub struct DispatchState {
    /// The last dispatched code; empty when nothing was dispatched yet.
    pub last_code: String,
    /// When the last dispatch happened.
    pub last_action_ms: u64,
    /// When the last housekeeping refresh happened.
    pub last_update_ms: u64,
}

impl DispatchState {
    /// Fresh state at listener start: no last code, both timers at `now_ms`.
    pub fn new(now_ms: u64) -> (s: Self)
        ensures
            s.last_code@.len() == 0,
            s.last_action_ms == now_ms,
            s.last_update_ms == now_ms,
    {
        DispatchState { last_code: String::new(), last_action_ms: now_ms, last_update_ms: now_ms }
    }

    /// Classifies one line read from the serial link at time `now_ms`.
    ///
    /// An empty line is idle. A non-empty line without the `0x` prefix is a
    /// protocol violation and dispatches nothing. The sentinel dispatches
    /// the last code, with the repeating flag set, only when at least
    /// [`REPEAT_TIMEOUT_MS`] elapsed since the previous dispatch and a last
    /// code exists; otherwise it is dropped with no effect. A concrete code
    /// equal to the last code dispatches with the repeating flag set; a
    /// different one becomes the last code, asks for exactly one "pressed"
    /// notification, and dispatches with the flag clear. Every dispatch
    /// refreshes the last-dispatch time.
    pub fn handle_line(&mut self, line: &str, now_ms: u64) -> (e: LineEvent)
        requires
            old(self).last_action_ms <= now_ms,
        ensures
            ({
                let t = trimmed(line@);
                &&& (e is Idle <==> t.len() == 0)
                &&& (e is Violation <==> t.len() > 0 && !has_code_prefix(t))
                &&& (e is Dropped <==> is_sentinel(t) && (now_ms - old(self).last_action_ms
                    < REPEAT_TIMEOUT_MS || old(self).last_code@.len() == 0))
                &&& (e is Dispatch <==> has_code_prefix(t) && (is_sentinel(t) ==> (now_ms - old(
                    self,
                ).last_action_ms >= REPEAT_TIMEOUT_MS && old(self).last_code@.len() > 0)))
                &&& (e matches LineEvent::Dispatch { code, repeating, notify_pressed } ==> (if
                    is_sentinel(t) {
                    &&& code@ == old(self).last_code@
                    &&& repeating
                    &&& !notify_pressed
                    &&& final(self).last_code@ == old(self).last_code@
                } else if t == old(self).last_code@ {
                    &&& code@ == t
                    &&& repeating
                    &&& !notify_pressed
                    &&& final(self).last_code@ == old(self).last_code@
                } else {
                    &&& code@ == t
                    &&& !repeating
                    &&& notify_pressed
                    &&& final(self).last_code@ == t
                }))
                &&& (e is Dispatch ==> final(self).last_action_ms == now_ms && final(self).last_update_ms == old(
                    self,
                ).last_update_ms)
                &&& (!(e is Dispatch) ==> *final(self) == *old(self))
            }),
    {
        proof {
            reveal_strlit("0xFFFFFFFF");
            assert("0xFFFFFFFF"@.len() == 10);
            assert("0xFFFFFFFF"@[0] == '0');
            assert("0xFFFFFFFF"@[1] == 'x');
        }
        let t = trim_spaces(line);
        let tlen = t.unicode_len();
        if tlen == 0 {
            return LineEvent::Idle;
        }
        if !(tlen >= 2 && t.get_char(0) == '0' && t.get_char(1) == 'x') {
            return LineEvent::Violation;
        }
        if str_eq(t, "0xFFFFFFFF") {
            if now_ms - self.last_action_ms < REPEAT_TIMEOUT_MS {
                return LineEvent::Dropped;
            }
            if self.last_code.as_str().unicode_len() == 0 {
                return LineEvent::Dropped;
            }
            self.last_action_ms = now_ms;
            return LineEvent::Dispatch {
                code: self.last_code.clone(),
                repeating: true,
                notify_pressed: false,
            };
        }
        let held = str_eq(t, self.last_code.as_str());
        if !held {
            self.last_code = t.to_owned();
        }
        self.last_action_ms = now_ms;
        LineEvent::Dispatch {
            code: self.last_code.clone(),
            repeating: held,
            notify_pressed: !held,
        }
    }

    /// Decides, at time `now_ms`, whether the out-of-band housekeeping
    /// refresh of the media cache is due: only after [`ACTION_INTERVAL_MS`]
    /// of dispatch inactivity, and at most once per [`UPDATE_INTERVAL_MS`].
    /// While dispatches are recent the refresh timer is pushed forward.
    pub fn should_refresh(&mut self, now_ms: u64) -> (r: bool)
        requires
            old(self).last_action_ms <= now_ms,
            old(self).last_update_ms <= now_ms,
        ensures
            r == (now_ms - old(self).last_action_ms >= ACTION_INTERVAL_MS && now_ms - old(
                self,
            ).last_update_ms >= UPDATE_INTERVAL_MS),
            final(self).last_code@ == old(self).last_code@,
            final(self).last_action_ms == old(self).last_action_ms,
            final(self).last_update_ms == (if r || now_ms - old(self).last_action_ms
                < ACTION_INTERVAL_MS {
                now_ms
            } else {
                old(self).last_update_ms
            }),
    {
        if now_ms - self.last_action_ms >= ACTION_INTERVAL_MS {
            if now_ms - self.last_update_ms >= UPDATE_INTERVAL_MS {
                self.last_update_ms = now_ms;
                true
            } else {
                false
            }
        } else {
            self.last_update_ms = now_ms;
            false
        }
    }
}

/// The connection lifecycle of the listener.
#[derive(Debug, Clone, Copy, PartialEq, Eq, Structural)]
pub enum LinkState {
    /// No link; the listener waits out the backoff before reconnecting.
    Disconnected,
    /// The listener is opening the port with the currently configured
    /// port number and speed.
    Connecting,
    /// Lines are being read and dispatched.
    Listening,
}

/// What happened to the connection.
#[derive(Debug, Clone, Copy, PartialEq, Eq, Structural)]
pub enum LinkEvent {
    /// The backoff elapsed and the listener wants to open the link.
    OpenRequested,
    /// The port opened.
    Opened,
    /// The port could not be opened.
    OpenFailed,
    /// The connection ended with a protocol violation or an I/O error.
    ConnectionLost,
    /// The listener was shut down cleanly.
    ClosedCleanly,
}

/// The connection state machine: `Disconnected -> Connecting -> Listening`,
/// falling back to `Disconnected` on any failure, from where the listener
/// retries after a fixed backoff with freshly read configuration.
pub open spec fn spec_link_step(s: LinkState, e: LinkEvent) -> LinkState {
    match (s, e) {
        (LinkState::Disconnected, LinkEvent::OpenRequested) => LinkState::Connecting,
        (LinkState::Connecting, LinkEvent::Opened) => LinkState::Listening,
        (LinkState::Connecting, LinkEvent::OpenFailed) => LinkState::Disconnected,
        (LinkState::Listening, LinkEvent::ConnectionLost) => LinkState::Disconnected,
        (LinkState::Listening, LinkEvent::ClosedCleanly) => LinkState::Disconnected,
        (_, _) => s,
    }
}

/// Advances the connection state machine by one event.
pub fn link_step(s: LinkState, e: LinkEvent) -> (r: LinkState)
    ensures
        r == spec_link_step(s, e),
{
    match (s, e) {
        (LinkState::Disconnected, LinkEvent::OpenRequested) => LinkState::Connecting,
        (LinkState::Connecting, LinkEvent::Opened) => LinkState::Listening,
        (LinkState::Connecting, LinkEvent::OpenFailed) => LinkState::Disconnected,
        (LinkState::Listening, LinkEvent::ConnectionLost) => LinkState::Disconnected,
        (LinkState::Listening, LinkEvent::ClosedCleanly) => LinkState::Disconnected,
        (_, _) => s,
    }
}

} // verus!
