use akc::catalog::{catalog_keys, get_rdev_key, sweep_keys, SimKey};
use akc::engine::{Akc, HookCall, MIN_DELAY_MILLIS};
use akc::hotkey::{FunctionKey, ListenKey};
use livesplit_hotkey::{KeyCode, Modifiers};

fn f(key: FunctionKey) -> ListenKey {
    ListenKey::new(key)
}

#[test]
fn catalog_rows_in_order() {
    let keys = catalog_keys();
    assert_eq!(keys.len(), 36);
    assert_eq!(keys[0], '1');
    assert_eq!(keys[9], '0');
    assert_eq!(keys[10], 'Q');
    assert_eq!(keys[35], 'M');
}

#[test]
fn lookup_known_and_unknown_keys() {
    assert_eq!(get_rdev_key('1'), Some(SimKey::Num1));
    assert_eq!(get_rdev_key('0'), Some(SimKey::Num0));
    assert_eq!(get_rdev_key('Q'), Some(SimKey::KeyQ));
    assert_eq!(get_rdev_key('M'), Some(SimKey::KeyM));
    assert_eq!(get_rdev_key('q'), None);
    assert_eq!(get_rdev_key('+'), None);
}

#[test]
fn sweep_skips_unmapped_keys() {
    let keys = vec!['1', '?', 'Q'];
    assert_eq!(sweep_keys(&keys), vec![SimKey::Num1, SimKey::KeyQ]);
    assert_eq!(sweep_keys(&Vec::new()), Vec::<SimKey>::new());
}

#[test]
fn hotkey_text_orders_modifiers() {
    assert_eq!(f(FunctionKey::F1).hotkey_text(), "F1");
    let lk = ListenKey { ctrl: true, alt: true, key: FunctionKey::F5 };
    assert_eq!(lk.hotkey_text(), "Ctrl+Alt+F5");
    let lk = ListenKey { ctrl: false, alt: true, key: FunctionKey::F12 };
    assert_eq!(lk.hotkey_text(), "Alt+F12");
}

#[test]
fn plain_chord_converts() {
    let h = f(FunctionKey::F3).to_hotkey();
    assert!(h.is_ok());
    assert_eq!(h.unwrap().key_code.name(), "F3");
}

#[test]
fn modifier_chords_convert() {
    let lk = ListenKey { ctrl: true, alt: false, key: FunctionKey::F1 };
    let h = lk.to_hotkey().unwrap();
    assert_eq!(h.key_code, KeyCode::F1);
    assert_eq!(h.modifiers, Modifiers::CONTROL);
    let lk = ListenKey { ctrl: true, alt: true, key: FunctionKey::F9 };
    let h = lk.to_hotkey().unwrap();
    assert_eq!(h.key_code, KeyCode::F9);
    assert_eq!(h.modifiers, Modifiers::CONTROL | Modifiers::ALT);
}

#[test]
fn new_engine_arms_only_stop() {
    let (akc, calls) = Akc::new();
    assert_eq!(calls, vec![HookCall::Register(f(FunctionKey::F2))]);
    assert!(!akc.is_active());
    assert_eq!(akc.delay, MIN_DELAY_MILLIS);
    assert_eq!(akc.start, f(FunctionKey::F1));
    assert_eq!(akc.stop, f(FunctionKey::F2));
    assert!(akc.selected_keys().is_empty());
}

#[test]
fn toggle_rearms_start() {
    let (mut akc, _) = Akc::new();
    let calls = akc.toggle_key('1');
    assert_eq!(calls, vec![HookCall::Register(f(FunctionKey::F1))]);
    assert!(akc.is_selected('1'));
    let calls = akc.toggle_key('2');
    assert_eq!(
        calls,
        vec![HookCall::Unregister(f(FunctionKey::F1)), HookCall::Register(f(FunctionKey::F1))]
    );
    akc.toggle_key('2');
    let calls = akc.toggle_key('1');
    assert_eq!(calls, vec![HookCall::Unregister(f(FunctionKey::F1))]);
    assert!(!akc.is_selected('1'));
    assert!(akc.start_slot.is_none());
}

#[test]
fn toggle_unknown_key_changes_no_selection() {
    let (mut akc, _) = Akc::new();
    akc.toggle_key('?');
    assert!(akc.selected_keys().is_empty());
    assert!(!akc.is_selected('?'));
}

#[test]
fn start_twice_spawns_one_loop() {
    let (mut akc, _) = Akc::new();
    akc.toggle_key('A');
    let first = akc.press(f(FunctionKey::F1));
    assert!(first.is_some());
    assert!(akc.press(f(FunctionKey::F1)).is_none());
    assert!(akc.press(f(FunctionKey::F1)).is_none());
    let g = first.unwrap().generation;
    assert!(akc.poll(g));
    // stop, then start again before the old loop has polled: nothing starts
    akc.press(f(FunctionKey::F2));
    assert!(akc.press(f(FunctionKey::F1)).is_none());
    assert!(!akc.is_active());
    // the old loop polls, is told to end, and only then can a loop start
    assert!(!akc.poll(g));
    let second = akc.press(f(FunctionKey::F1)).unwrap();
    assert!(!akc.poll(g));
    assert!(akc.poll(second.generation));
}

#[test]
fn stop_when_idle_is_noop() {
    let (mut akc, _) = Akc::new();
    assert!(akc.press(f(FunctionKey::F2)).is_none());
    assert!(!akc.is_active());
    assert!(akc.press(f(FunctionKey::F2)).is_none());
    assert!(!akc.is_active());
}

#[test]
fn start_with_empty_selection_does_nothing() {
    let (mut akc, _) = Akc::new();
    assert!(akc.press(f(FunctionKey::F1)).is_none());
    assert!(!akc.is_active());
    akc.toggle_key('Z');
    akc.toggle_key('Z');
    assert!(akc.press(f(FunctionKey::F1)).is_none());
    assert!(!akc.is_active());
}

#[test]
fn rebind_start_drops_old_chord() {
    let (mut akc, _) = Akc::new();
    akc.toggle_key('1');
    let calls = akc.set_start(f(FunctionKey::F3));
    assert_eq!(
        calls,
        vec![HookCall::Unregister(f(FunctionKey::F1)), HookCall::Register(f(FunctionKey::F3))]
    );
    assert!(akc.press(f(FunctionKey::F1)).is_none());
    assert!(!akc.is_active());
    assert!(akc.press(f(FunctionKey::F3)).is_some());
    assert!(akc.is_active());
}

#[test]
fn rebind_to_same_chord_is_noop() {
    let (mut akc, _) = Akc::new();
    assert!(akc.set_start(f(FunctionKey::F1)).is_empty());
    assert!(akc.set_stop(f(FunctionKey::F2)).is_empty());
}

#[test]
fn rebind_stop_drops_old_chord() {
    let (mut akc, _) = Akc::new();
    akc.toggle_key('1');
    let calls = akc.set_stop(f(FunctionKey::F4));
    assert_eq!(
        calls,
        vec![HookCall::Unregister(f(FunctionKey::F2)), HookCall::Register(f(FunctionKey::F4))]
    );
    akc.press(f(FunctionKey::F1));
    akc.press(f(FunctionKey::F2));
    assert!(akc.is_active());
    akc.press(f(FunctionKey::F4));
    assert!(!akc.is_active());
}

#[test]
fn start_chord_equal_to_stop_is_not_bound() {
    let (mut akc, _) = Akc::new();
    akc.toggle_key('1');
    let calls = akc.set_start(f(FunctionKey::F2));
    assert_eq!(calls, vec![HookCall::Unregister(f(FunctionKey::F1))]);
    assert!(akc.press(f(FunctionKey::F2)).is_none());
    assert!(!akc.is_active());
}

#[test]
fn delay_floor() {
    let (mut akc, _) = Akc::new();
    akc.set_delay(50);
    assert_eq!(akc.delay, 100);
    akc.set_delay(0);
    assert_eq!(akc.delay, 100);
    akc.set_delay(250);
    assert_eq!(akc.delay, 250);
    akc.set_delay(100);
    assert_eq!(akc.delay, 100);
}

#[test]
fn delay_change_reaches_next_start() {
    let (mut akc, _) = Akc::new();
    akc.set_delay(300);
    akc.toggle_key('1');
    let calls = akc.set_delay(500);
    assert_eq!(
        calls,
        vec![HookCall::Unregister(f(FunctionKey::F1)), HookCall::Register(f(FunctionKey::F1))]
    );
    let t = akc.press(f(FunctionKey::F1)).unwrap();
    assert_eq!(t.delay, 500);
    // a running loop keeps its delay; the next start takes the new one
    akc.set_delay(700);
    assert!(akc.poll(t.generation));
    akc.press(f(FunctionKey::F2));
    assert!(!akc.poll(t.generation));
    let next = akc.press(f(FunctionKey::F1)).unwrap();
    assert_eq!(next.delay, 700);
}

#[test]
fn register_start_drops_stale_binding() {
    let (mut akc, _) = Akc::new();
    akc.toggle_key('1');
    assert!(akc.start_slot.is_some());
    akc.selection[0] = false;
    let calls = akc.register_start(None);
    assert_eq!(calls, vec![HookCall::Unregister(f(FunctionKey::F1))]);
    assert!(akc.start_slot.is_none());
    assert!(akc.press(f(FunctionKey::F1)).is_none());
    assert!(!akc.is_active());
}

#[test]
fn register_start_takes_current_selection() {
    let (mut akc, _) = Akc::new();
    akc.toggle_key('1');
    akc.selection[10] = true;
    let calls = akc.register_start(None);
    assert_eq!(
        calls,
        vec![HookCall::Unregister(f(FunctionKey::F1)), HookCall::Register(f(FunctionKey::F1))]
    );
    let t = akc.press(f(FunctionKey::F1)).unwrap();
    assert_eq!(t.keys, vec!['1', 'Q']);
}

#[test]
fn snapshot_freeze() {
    let (mut akc, _) = Akc::new();
    akc.toggle_key('A');
    akc.toggle_key('B');
    let running = akc.press(f(FunctionKey::F1)).unwrap();
    assert_eq!(running.keys, vec!['A', 'B']);
    akc.toggle_key('B');
    assert!(akc.poll(running.generation));
    assert_eq!(running.keys, vec!['A', 'B']);
    akc.press(f(FunctionKey::F2));
    assert!(!akc.poll(running.generation));
    let next = akc.press(f(FunctionKey::F1)).unwrap();
    assert_eq!(next.keys, vec!['A']);
}

#[test]
fn scenario_one_and_q() {
    let (mut akc, _) = Akc::new();
    akc.toggle_key('Q');
    akc.toggle_key('1');
    akc.set_delay(100);
    let t = akc.press(f(FunctionKey::F1)).unwrap();
    assert!(akc.is_active());
    assert_eq!(t.keys, vec!['1', 'Q']);
    assert_eq!(t.delay, 100);
    assert_eq!(sweep_keys(&t.keys), vec![SimKey::Num1, SimKey::KeyQ]);
    assert!(akc.poll(t.generation));
    assert!(akc.press(f(FunctionKey::F2)).is_none());
    assert!(!akc.is_active());
    assert!(!akc.poll(t.generation));
    assert!(akc.press(f(FunctionKey::F2)).is_none());
    assert!(!akc.is_active());
}

#[test]
fn unregister_clears_matching_slot() {
    let (mut akc, _) = Akc::new();
    akc.toggle_key('1');
    akc.unregister(f(FunctionKey::F5));
    assert!(akc.start_slot.is_some());
    assert!(akc.stop_slot.is_some());
    akc.unregister(f(FunctionKey::F2));
    assert!(akc.stop_slot.is_none());
    assert!(akc.start_slot.is_some());
    akc.unregister(f(FunctionKey::F1));
    assert!(akc.start_slot.is_none());
}

#[test]
fn exit_clears_run_state() {
    let (mut akc, _) = Akc::new();
    akc.toggle_key('1');
    let t = akc.press(f(FunctionKey::F1)).unwrap();
    akc.on_exit();
    assert!(!akc.is_active());
    assert!(!akc.poll(t.generation));
}
