use ankra::context::{Action, AnkraContext, ImEvent, KeyEvent, KeyState, PressState};
use ankra::table::{Entry, Table, TableConfig};
use ankra::AnkraEngine;
use std::collections::HashMap;

fn entry(character: char, sequence: &str) -> Entry {
    Entry { character, sequence: sequence.to_string() }
}

/// The same layout as the engine tests, but addressed through the context:
/// raw keycodes are translated by adding 8, so raw key 30 reaches the
/// dictionary as keycode 38 and raw key 57 as the commit key 65.
fn context() -> AnkraContext {
    let entries = vec![entry('日', "a"), entry('曰', "a")];
    let table = Table { id: "cangjie5".to_string(), entries };
    let mut specs: HashMap<u16, Vec<String>> = HashMap::new();
    specs.insert(65, vec!["COMMIT".to_string()]);
    let mut keys: HashMap<u16, Vec<char>> = HashMap::new();
    keys.insert(38, vec!['a']);
    AnkraContext::new(AnkraEngine::new(table, TableConfig { specs, keys }))
}

fn press(key: u32, time: u32) -> KeyEvent {
    KeyEvent::Key { state: KeyState::Pressed, key, time }
}

fn release(key: u32, time: u32) -> KeyEvent {
    KeyEvent::Key { state: KeyState::Released, key, time }
}

fn press_state(ctx: &AnkraContext) -> Option<PressState> {
    ctx.repeat_state.map(|pair| pair.1)
}

#[test]
fn keys_bypass_while_inactive() {
    let mut ctx = context();
    let acts = ctx.handle_key_ev(press(30, 5), 0);
    assert_eq!(acts.len(), 1);
    assert!(matches!(acts[0], Action::ForwardKey { time: 5, key: 30, state: KeyState::Pressed }));
}

#[test]
fn keys_bypass_while_a_modifier_is_held() {
    let mut ctx = context();
    ctx.handle_im_ev(ImEvent::Activate);
    let acts = ctx.handle_key_ev(
        KeyEvent::Modifiers { depressed: 4, latched: 0, locked: 0, group: 0 },
        0,
    );
    assert_eq!(acts.len(), 1);
    assert!(matches!(
        acts[0],
        Action::ForwardModifiers { depressed: 4, latched: 0, locked: 0, group: 0 }
    ));
    let acts = ctx.handle_key_ev(press(30, 6), 0);
    assert_eq!(acts.len(), 1);
    assert!(matches!(acts[0], Action::ForwardKey { key: 30, .. }));
    // once every modifier is up, presses compose again
    ctx.handle_key_ev(KeyEvent::Modifiers { depressed: 0, latched: 0, locked: 0, group: 0 }, 0);
    let acts = ctx.handle_key_ev(press(30, 7), 0);
    assert!(matches!(acts[0], Action::ShowPreedit { ref text } if text == "日"));
}

#[test]
fn keymap_is_forwarded_once_and_fd_always_closed() {
    let mut ctx = context();
    let acts = ctx.handle_key_ev(KeyEvent::Keymap { format: 1, fd: 7, size: 100 }, 0);
    assert_eq!(acts.len(), 2);
    assert!(matches!(acts[0], Action::SendKeymap { format: 1, fd: 7, size: 100 }));
    assert!(matches!(acts[1], Action::CloseFd { fd: 7 }));
    let acts = ctx.handle_key_ev(KeyEvent::Keymap { format: 1, fd: 8, size: 100 }, 0);
    assert_eq!(acts.len(), 1);
    assert!(matches!(acts[0], Action::CloseFd { fd: 8 }));
}

#[test]
fn consumed_press_flushes_a_serial_and_increments_it() {
    let mut ctx = context();
    ctx.handle_im_ev(ImEvent::Activate);
    let acts = ctx.handle_key_ev(press(30, 1), 0);
    assert_eq!(acts.len(), 2);
    assert!(matches!(acts[0], Action::ShowPreedit { ref text } if text == "日"));
    assert!(matches!(acts[1], Action::CommitBatch { serial: 0 }));
    let acts = ctx.handle_key_ev(press(57, 2), 0);
    assert_eq!(acts.len(), 3);
    assert!(matches!(acts[0], Action::CommitText { ref text } if text == "日"));
    assert!(matches!(acts[1], Action::ClearPreedit));
    assert!(matches!(acts[2], Action::CommitBatch { serial: 1 }));
}

#[test]
fn unconsumed_press_is_forwarded_and_still_batched() {
    let mut ctx = context();
    ctx.handle_im_ev(ImEvent::Activate);
    let acts = ctx.handle_key_ev(press(90, 3), 0);
    assert_eq!(acts.len(), 3);
    assert!(matches!(acts[0], Action::ForwardKey { time: 3, key: 90, state: KeyState::Pressed }));
    assert!(matches!(acts[1], Action::ClearPreedit));
    assert!(matches!(acts[2], Action::CommitBatch { serial: 0 }));
}

#[test]
fn repeat_press_arms_delay_then_interval_then_stops_on_release() {
    let mut ctx = context();
    ctx.handle_im_ev(ImEvent::Activate);
    let acts = ctx.handle_key_ev(KeyEvent::RepeatInfo { rate: 25, delay: 600 }, 0);
    assert!(acts.is_empty());
    // a consumed press arms the one-shot delay
    let acts = ctx.handle_key_ev(press(30, 1000), 10);
    assert_eq!(acts.len(), 3);
    assert!(matches!(acts[2], Action::ArmDelay { ms: 600 }));
    assert!(matches!(press_state(&ctx), Some(PressState::Pressing { key: 30, is_repeating: false, .. })));
    // the first fire switches to the periodic interval and synthesizes a
    // press of the same key at the original time plus the elapsed span
    let acts = ctx.handle_timer_ev(610);
    assert!(matches!(acts[0], Action::ArmInterval { ms: 40 }));
    assert!(matches!(press_state(&ctx), Some(PressState::Pressing { key: 30, is_repeating: true, .. })));
    // "aa" matches nothing: the synthesized press empties the composition
    assert!(matches!(acts[1], Action::ClearPreedit));
    assert!(matches!(acts[2], Action::CommitBatch { serial: 1 }));
    // no fresh one-shot delay comes from a synthesized press
    assert!(!acts.iter().any(|a| matches!(a, Action::ArmDelay { .. })));
    // a later fire only re-dispatches
    let acts = ctx.handle_timer_ev(650);
    assert!(!acts.iter().any(|a| matches!(a, Action::ArmInterval { .. })));
    assert!(!acts.iter().any(|a| matches!(a, Action::ArmDelay { .. })));
    // releasing the tracked key disarms and forwards the release
    let acts = ctx.handle_key_ev(release(30, 1100), 700);
    assert_eq!(acts.len(), 2);
    assert!(matches!(acts[0], Action::Disarm));
    assert!(matches!(acts[1], Action::ForwardKey { time: 1100, key: 30, state: KeyState::Released }));
    assert!(matches!(press_state(&ctx), Some(PressState::NotPressing)));
    // a fire after the release synthesizes nothing
    let acts = ctx.handle_timer_ev(800);
    assert!(acts.is_empty());
}

#[test]
fn synthesized_press_time_is_origin_plus_elapsed() {
    let mut ctx = context();
    ctx.handle_im_ev(ImEvent::Activate);
    ctx.handle_key_ev(KeyEvent::RepeatInfo { rate: 50, delay: 200 }, 0);
    // hold a modifier down so the synthesized press is forwarded raw and
    // its timestamp is visible
    ctx.handle_key_ev(press(90, 4000), 100);
    ctx.handle_key_ev(KeyEvent::Modifiers { depressed: 1, latched: 0, locked: 0, group: 0 }, 0);
    let acts = ctx.handle_timer_ev(350);
    assert!(matches!(acts[0], Action::ArmInterval { ms: 20 }));
    assert!(matches!(acts[1], Action::ForwardKey { time: 4250, key: 90, state: KeyState::Pressed }));
}

#[test]
fn releasing_another_key_keeps_the_tracked_press() {
    let mut ctx = context();
    ctx.handle_im_ev(ImEvent::Activate);
    ctx.handle_key_ev(KeyEvent::RepeatInfo { rate: 25, delay: 600 }, 0);
    ctx.handle_key_ev(press(30, 1), 0);
    let acts = ctx.handle_key_ev(release(31, 2), 0);
    assert_eq!(acts.len(), 1);
    assert!(matches!(acts[0], Action::ForwardKey { key: 31, state: KeyState::Released, .. }));
    assert!(matches!(press_state(&ctx), Some(PressState::Pressing { key: 30, .. })));
}

#[test]
fn zero_rate_disables_repeat() {
    let mut ctx = context();
    ctx.handle_im_ev(ImEvent::Activate);
    ctx.handle_key_ev(KeyEvent::RepeatInfo { rate: 25, delay: 600 }, 0);
    // nothing is tracked, so the timer is not armed and no disarm is owed
    let acts = ctx.handle_key_ev(KeyEvent::RepeatInfo { rate: 0, delay: 600 }, 0);
    assert!(acts.is_empty());
    assert!(ctx.repeat_state.is_none());
    // with repeat disabled a press arms nothing
    let acts = ctx.handle_key_ev(press(30, 1), 0);
    assert!(!acts.iter().any(|a| matches!(a, Action::ArmDelay { .. })));
    // and a timer fire is ignored
    let acts = ctx.handle_timer_ev(100);
    assert!(acts.is_empty());
}

#[test]
fn disabling_repeat_while_pressing_disarms_the_timer() {
    let mut ctx = context();
    ctx.handle_im_ev(ImEvent::Activate);
    ctx.handle_key_ev(KeyEvent::RepeatInfo { rate: 25, delay: 600 }, 0);
    let acts = ctx.handle_key_ev(press(30, 1), 0);
    assert!(matches!(acts[2], Action::ArmDelay { ms: 600 }));
    // repeat turned off while the key is still down: the armed timer must
    // be disarmed along with the discarded press state
    let acts = ctx.handle_key_ev(KeyEvent::RepeatInfo { rate: 0, delay: 600 }, 0);
    assert_eq!(acts.len(), 1);
    assert!(matches!(acts[0], Action::Disarm));
    assert!(ctx.repeat_state.is_none());
    // a stray fire after the disable synthesizes nothing
    let acts = ctx.handle_timer_ev(700);
    assert!(acts.is_empty());
}

#[test]
fn repeat_interval_never_truncates_to_zero() {
    let mut ctx = context();
    ctx.handle_im_ev(ImEvent::Activate);
    ctx.handle_key_ev(KeyEvent::RepeatInfo { rate: 2000, delay: 100 }, 0);
    ctx.handle_key_ev(press(30, 1), 0);
    let acts = ctx.handle_timer_ev(100);
    assert!(matches!(acts[0], Action::ArmInterval { ms: 1 }));
}

#[test]
fn renegotiation_keeps_the_inflight_press() {
    let mut ctx = context();
    ctx.handle_im_ev(ImEvent::Activate);
    ctx.handle_key_ev(KeyEvent::RepeatInfo { rate: 25, delay: 600 }, 0);
    ctx.handle_key_ev(press(30, 1), 0);
    ctx.handle_key_ev(KeyEvent::RepeatInfo { rate: 50, delay: 300 }, 0);
    assert!(matches!(press_state(&ctx), Some(PressState::Pressing { key: 30, .. })));
}

#[test]
fn deactivation_batch_end_abandons_everything_at_once() {
    let mut ctx = context();
    ctx.handle_im_ev(ImEvent::Activate);
    ctx.handle_key_ev(KeyEvent::RepeatInfo { rate: 25, delay: 600 }, 0);
    ctx.handle_key_ev(press(30, 1), 0);
    assert!(!ctx.engine.table.key_sequence.is_empty());
    ctx.handle_im_ev(ImEvent::Deactivate);
    let acts = ctx.handle_im_ev(ImEvent::Done);
    assert_eq!(acts.len(), 1);
    assert!(matches!(acts[0], Action::Disarm));
    assert!(ctx.engine.table.key_sequence.is_empty());
    assert!(ctx.engine.table.relative_entries.is_empty());
    assert_eq!(ctx.engine.table.index, 0);
    assert!(matches!(press_state(&ctx), Some(PressState::NotPressing)));
    // a fire after deactivation synthesizes nothing
    let acts = ctx.handle_timer_ev(50);
    assert!(acts.is_empty());
}

#[test]
fn batch_end_while_active_changes_nothing() {
    let mut ctx = context();
    ctx.handle_im_ev(ImEvent::Activate);
    ctx.handle_key_ev(press(30, 1), 0);
    let acts = ctx.handle_im_ev(ImEvent::Done);
    assert!(acts.is_empty());
    assert!(!ctx.engine.table.key_sequence.is_empty());
}

#[test]
fn unavailable_capability_aborts() {
    let mut ctx = context();
    let acts = ctx.handle_im_ev(ImEvent::Unavailable);
    assert_eq!(acts.len(), 1);
    assert!(matches!(acts[0], Action::AbortUnavailable));
}
