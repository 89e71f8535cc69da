use im_crashing::app_state::{
    PollAction, RegistryEvent, SIGNAL_EVENT, SeatChange, WAYLAND_EVENT, poll_action,
    registry_change, update_im_map,
};
use im_crashing::input_method::{
    ImEvent, InputMethodState, KeyAction, KeyDirection, KeyFollowUp, KeyState,
    RIME_RELEASE_MASK,
};
use im_crashing::rime::{Rime, RimeCall, RimeSessionId};
use std::collections::HashMap;

fn active_rime() -> Rime {
    let mut rime = Rime::new();
    rime.init();
    rime
}

#[test]
fn poll_sources() {
    assert_eq!(poll_action(WAYLAND_EVENT), PollAction::Wayland);
    assert_eq!(poll_action(SIGNAL_EVENT), PollAction::Stop);
    assert_eq!(poll_action(7), PollAction::Ignore);
}

#[test]
fn registry_binds_only_seats() {
    let global = RegistryEvent::Global {
        name: 3,
        interface: "wl_seat".to_string(),
        version: 9,
    };
    assert_eq!(
        registry_change(&global),
        SeatChange::Bind {
            name: 3,
            version: 9
        }
    );
    let other = RegistryEvent::Global {
        name: 4,
        interface: "wl_output".to_string(),
        version: 4,
    };
    assert_eq!(registry_change(&other), SeatChange::Ignore);
    assert_eq!(
        registry_change(&RegistryEvent::GlobalRemove { name: 3 }),
        SeatChange::Remove { name: 3 }
    );
    assert_eq!(
        registry_change(&RegistryEvent::Other),
        SeatChange::Ignore
    );
}

#[test]
fn seat_map_replaces_and_removes() {
    let mut map: HashMap<u32, &str> = HashMap::new();
    update_im_map(&mut map, 1, Some("first"));
    update_im_map(&mut map, 2, Some("other"));
    update_im_map(&mut map, 1, Some("second"));
    assert_eq!(map.get(&1), Some(&"second"));
    update_im_map(&mut map, 1, None);
    assert!(!map.contains_key(&1));
    assert_eq!(map.get(&2), Some(&"other"));
    update_im_map(&mut map, 5, None);
    assert_eq!(map.len(), 1);
}

#[test]
fn events_wait_until_done() {
    let rime = active_rime();
    let mut im = InputMethodState::new(RimeSessionId::from_raw(9));
    assert!(!im.is_activated());
    assert!(im.on_event(&rime, ImEvent::Activate).is_empty());
    assert!(im.on_event(&rime, ImEvent::Other).is_empty());
    assert!(!im.is_activated());
    assert!(im.has_pending_switch());
    assert_eq!(im.serial(), 0);
    let calls = im.on_event(&rime, ImEvent::Done);
    assert_eq!(calls, vec![RimeCall::ClearComposition { session: 9 }]);
    assert!(im.is_activated());
    assert!(!im.has_pending_switch());
    assert_eq!(im.serial(), 1);
    assert_eq!(im.session().raw(), 9);
}

#[test]
fn last_switch_before_done_decides() {
    let rime = active_rime();
    let mut im = InputMethodState::new(RimeSessionId::from_raw(1));
    im.on_event(&rime, ImEvent::Activate);
    im.on_event(&rime, ImEvent::Deactivate);
    im.on_event(&rime, ImEvent::Other);
    let calls = im.on_event(&rime, ImEvent::Done);
    assert_eq!(calls.len(), 2);
    assert!(!im.is_activated());
    assert_eq!(im.serial(), 1);
}

#[test]
fn done_without_switch_keeps_handled_keys() {
    let rime = active_rime();
    let mut im = InputMethodState::new(RimeSessionId::from_raw(1));
    im.on_event(&rime, ImEvent::Activate);
    im.on_event(&rime, ImEvent::Done);
    assert!(im.key_processed(30, true));
    im.on_event(&rime, ImEvent::Other);
    assert!(im.on_event(&rime, ImEvent::Done).is_empty());
    assert_eq!(im.serial(), 2);
    // The press was recorded, so its release is still swallowed.
    assert!(im.key_processed(30, false));
}

#[test]
fn switch_forgets_handled_keys() {
    let rime = active_rime();
    let mut im = InputMethodState::new(RimeSessionId::from_raw(1));
    im.on_event(&rime, ImEvent::Activate);
    im.on_event(&rime, ImEvent::Done);
    assert!(im.key_processed(30, true));
    im.on_event(&rime, ImEvent::Activate);
    im.on_event(&rime, ImEvent::Done);
    assert!(!im.key_processed(30, false));
}

#[test]
fn key_actions_follow_activation() {
    let rime = active_rime();
    let mut im = InputMethodState::new(RimeSessionId::from_raw(1));
    assert_eq!(im.key_action(KeyState::Other), KeyAction::Forward);
    assert_eq!(
        im.key_action(KeyState::Pressed),
        KeyAction::UpdateAndForward {
            direction: KeyDirection::Down
        }
    );
    im.on_event(&rime, ImEvent::Activate);
    im.on_event(&rime, ImEvent::Done);
    assert_eq!(
        im.key_action(KeyState::Released),
        KeyAction::UpdateAndProcess {
            direction: KeyDirection::Up
        }
    );
    assert_eq!(
        im.key_action(KeyState::Pressed),
        KeyAction::UpdateAndProcess {
            direction: KeyDirection::Down
        }
    );
    assert_eq!(im.key_action(KeyState::Other), KeyAction::Forward);
}

#[test]
fn taken_press_swallows_release() {
    let mut im = InputMethodState::new(RimeSessionId::from_raw(1));
    assert!(im.key_processed(44, true));
    assert!(im.key_processed(44, false));
    assert!(!im.key_processed(44, false));
    assert!(!im.key_processed(45, false));
}

#[test]
fn keycode_and_modifiers() {
    assert_eq!(InputMethodState::keycode(30), 38);
    assert_eq!(InputMethodState::keycode(u32::MAX - 8), u32::MAX);
    assert_eq!(RIME_RELEASE_MASK, 1 << 30);
    assert_eq!(InputMethodState::rime_modifiers(5, KeyState::Released), 5 | (1 << 30));
    assert_eq!(InputMethodState::rime_modifiers(5, KeyState::Pressed), 5);
    assert_eq!(InputMethodState::rime_modifiers(5, KeyState::Other), 5);
}

#[test]
fn taken_key_is_followed_by_preedit_commit_text_and_commit() {
    let rime = active_rime();
    let mut im = InputMethodState::new(RimeSessionId::from_raw(6));
    im.on_event(&rime, ImEvent::Done);
    im.on_event(&rime, ImEvent::Done);
    assert_eq!(
        im.key_follow_up(&rime, true),
        vec![
            KeyFollowUp::ShowPreedit {
                call: RimeCall::GetContext { session: 6 }
            },
            KeyFollowUp::SendCommit {
                call: RimeCall::GetCommit { session: 6 }
            },
            KeyFollowUp::Commit { serial: 2 },
        ]
    );
}

#[test]
fn key_let_go_sends_nothing() {
    let rime = Rime::new();
    let im = InputMethodState::new(RimeSessionId::from_raw(6));
    assert!(im.key_follow_up(&rime, false).is_empty());
}
