use remote_control::listener::DispatchState;
use remote_control::listener::LineEvent;
use remote_control::listener::LinkEvent;
use remote_control::listener::LinkState;
use remote_control::listener::link_step;
use remote_control::listener::ACTION_INTERVAL_MS;
use remote_control::listener::REPEAT_TIMEOUT_MS;
use remote_control::listener::UPDATE_INTERVAL_MS;

fn dispatch_parts(e: LineEvent) -> (String, bool, bool) {
    match e {
        LineEvent::Dispatch { code, repeating, notify_pressed } => (code, repeating, notify_pressed),
        other => panic!("expected a dispatch, got {:?}", other),
    }
}

#[test]
fn empty_line_is_idle() {
    let mut st = DispatchState::new(0);
    assert_eq!(st.handle_line("", 10), LineEvent::Idle);
    assert_eq!(st.handle_line("  \r\n", 20), LineEvent::Idle);
    assert_eq!(st.last_action_ms, 0);
}

#[test]
fn code_without_prefix_is_violation() {
    let mut st = DispatchState::new(0);
    assert_eq!(st.handle_line("hello", 10), LineEvent::Violation);
    assert_eq!(st.handle_line("1xAB\r\n", 20), LineEvent::Violation);
    assert_eq!(st.handle_line("x0AB", 30), LineEvent::Violation);
    // a violation dispatches nothing and leaves the state unchanged:
    assert_eq!(st.last_action_ms, 0);
    assert_eq!(st.last_code, "");
}

#[test]
fn fresh_code_dispatches_with_notification() {
    let mut st = DispatchState::new(0);
    let (code, repeating, notify) = dispatch_parts(st.handle_line("0xAB12\r\n", 100));
    assert_eq!(code, "0xAB12");
    assert!(!repeating);
    assert!(notify);
    assert_eq!(st.last_action_ms, 100);
    assert_eq!(st.last_code, "0xAB12");
}

#[test]
fn held_code_sets_repeating_without_notification() {
    let mut st = DispatchState::new(0);
    let _ = st.handle_line("0xAB12", 100);
    let (code, repeating, notify) = dispatch_parts(st.handle_line("0xAB12", 200));
    assert_eq!(code, "0xAB12");
    assert!(repeating);
    assert!(!notify);
}

#[test]
fn changed_code_clears_repeating_and_notifies_once() {
    let mut st = DispatchState::new(0);
    let _ = st.handle_line("0xAB12", 100);
    let (code, repeating, notify) = dispatch_parts(st.handle_line("0xCD34", 200));
    assert_eq!(code, "0xCD34");
    assert!(!repeating);
    assert!(notify);
    // and again without a change: no second notification
    let (_, repeating2, notify2) = dispatch_parts(st.handle_line("0xCD34", 300));
    assert!(repeating2);
    assert!(!notify2);
}

#[test]
fn sentinel_before_timeout_is_dropped() {
    let mut st = DispatchState::new(0);
    let _ = st.handle_line("0xAB12", 100);
    let e = st.handle_line("0xFFFFFFFF", 100 + REPEAT_TIMEOUT_MS - 1);
    assert_eq!(e, LineEvent::Dropped);
    assert_eq!(st.last_action_ms, 100);
}

#[test]
fn sentinel_after_timeout_repeats_last_code() {
    let mut st = DispatchState::new(0);
    let _ = st.handle_line("0xAB12", 100);
    let (code, repeating, notify) = dispatch_parts(st.handle_line("0xFFFFFFFF", 100 + REPEAT_TIMEOUT_MS));
    assert_eq!(code, "0xAB12");
    assert!(repeating);
    assert!(!notify);
    assert_eq!(st.last_action_ms, 100 + REPEAT_TIMEOUT_MS);
}

#[test]
fn sentinel_without_last_code_is_dropped() {
    let mut st = DispatchState::new(0);
    let e = st.handle_line("0xFFFFFFFF", 1000);
    assert_eq!(e, LineEvent::Dropped);
}

#[test]
fn refresh_only_after_idle_and_update_interval() {
    let mut st = DispatchState::new(0);
    // active input keeps pushing the refresh timer:
    assert!(!st.should_refresh(ACTION_INTERVAL_MS - 1));
    assert_eq!(st.last_update_ms, ACTION_INTERVAL_MS - 1);
    // idle long enough, but the update interval has not elapsed:
    let mut st2 = DispatchState::new(0);
    assert!(!st2.should_refresh(ACTION_INTERVAL_MS));
    // idle and overdue: refresh fires and stamps the update timer
    let mut st3 = DispatchState::new(0);
    let later = UPDATE_INTERVAL_MS + 1;
    assert!(st3.should_refresh(later));
    assert_eq!(st3.last_update_ms, later);
    // and not again at once:
    assert!(!st3.should_refresh(later + ACTION_INTERVAL_MS));
}

#[test]
fn link_lifecycle_reconnects_on_failure() {
    let s = LinkState::Disconnected;
    let s = link_step(s, LinkEvent::OpenRequested);
    assert_eq!(s, LinkState::Connecting);
    let s = link_step(s, LinkEvent::OpenFailed);
    assert_eq!(s, LinkState::Disconnected);
    let s = link_step(s, LinkEvent::OpenRequested);
    let s = link_step(s, LinkEvent::Opened);
    assert_eq!(s, LinkState::Listening);
    let s = link_step(s, LinkEvent::ConnectionLost);
    assert_eq!(s, LinkState::Disconnected);
    // irrelevant events do not move the machine:
    assert_eq!(link_step(LinkState::Listening, LinkEvent::Opened), LinkState::Listening);
}
