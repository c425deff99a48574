//! The navigation-mode rules, exercised through the registry.

use keyborg::focus_event::{FocusSetupInput, KeyborgFocusInDetails};
use keyborg::keyborg::{
    ActiveElement, IsNavigatingWithKeyboard, Keyborg, KeyborgCore, KeyborgProps, KeyborgRuntime,
    KeyDownInput, MouseDownInput, Notification,
};

const WIN: u64 = 1;
const DOC: u64 = 10;

fn plain_setup() -> FocusSetupInput {
    FocusSetupInput { doc: DOC, can_override_probe: true, active_chain: Vec::new() }
}

fn acquire(rt: &mut KeyborgRuntime, props: Option<KeyborgProps>) -> u64 {
    Keyborg::create(rt, WIN, &plain_setup(), props).handle
}

fn key(name: &str, code: u32) -> KeyDownInput {
    KeyDownInput { key: name.to_owned(), key_code: code }
}

fn plain_element(id: u64) -> Option<ActiveElement> {
    Some(ActiveElement { id, tag_name: "DIV".to_owned(), is_content_editable: false })
}

fn input_element(id: u64) -> Option<ActiveElement> {
    Some(ActiveElement { id, tag_name: "INPUT".to_owned(), is_content_editable: false })
}

fn focus_in_details() -> KeyborgFocusInDetails {
    KeyborgFocusInDetails {
        related_target: Some(5),
        original_event: false,
        is_focused_programmatically: Some(false),
    }
}

fn genuine_mouse_down() -> MouseDownInput {
    MouseDownInput { buttons: 1, client_x: 12, client_y: 7, screen_x: 40, screen_y: 60 }
}

#[test]
fn navigation_state_flag_basics() {
    let mut flag = IsNavigatingWithKeyboard::new();
    assert!(!flag.get());
    assert!(flag.set(true));
    assert!(flag.get());
    assert!(!flag.set(true));
    assert!(flag.set(false));
    assert!(!flag.get());
}

#[test]
fn pointer_down_clears_keyboard_and_blocks_focus_in() {
    let mut rt = KeyborgRuntime::new();
    let handle = acquire(&mut rt, None);
    rt.subscribe(handle, 100);

    // Enter keyboard mode first.
    rt.on_key_down(WIN, &key("Tab", 9), &plain_element(3));
    assert!(Keyborg::is_navigating_with_keyboard(&rt, handle));

    // A genuine pointer-down leaves keyboard mode at once.
    let outcome = rt.on_mouse_down(WIN, &genuine_mouse_down());
    assert!(outcome.restart_mouse_or_touch_timer);
    assert_eq!(outcome.notifications, vec![Notification { callback: 100, value: false }]);
    assert!(!Keyborg::is_navigating_with_keyboard(&rt, handle));

    // A canonical focus-in within the pointer-activity window is ignored.
    let out = rt.on_keyborg_focus_in(WIN, &focus_in_details());
    assert!(out.is_empty());
    assert!(!Keyborg::is_navigating_with_keyboard(&rt, handle));

    // Once the window elapses, the same focus-in counts as keyboard use.
    rt.on_mouse_or_touch_timeout(WIN);
    let out = rt.on_keyborg_focus_in(WIN, &focus_in_details());
    assert_eq!(out, vec![Notification { callback: 100, value: true }]);
    assert!(Keyborg::is_navigating_with_keyboard(&rt, handle));
}

#[test]
fn synthesized_pointer_down_is_ignored() {
    let mut rt = KeyborgRuntime::new();
    let handle = acquire(&mut rt, None);
    rt.on_key_down(WIN, &key("Tab", 9), &plain_element(3));
    assert!(Keyborg::is_navigating_with_keyboard(&rt, handle));

    // No buttons pressed: most likely a screen-reader action.
    let no_buttons =
        MouseDownInput { buttons: 0, client_x: 12, client_y: 7, screen_x: 40, screen_y: 60 };
    let outcome = rt.on_mouse_down(WIN, &no_buttons);
    assert!(!outcome.restart_mouse_or_touch_timer);
    assert!(outcome.notifications.is_empty());
    assert!(Keyborg::is_navigating_with_keyboard(&rt, handle));

    // All coordinates zero: same heuristic.
    let all_zero =
        MouseDownInput { buttons: 1, client_x: 0, client_y: 0, screen_x: 0, screen_y: 0 };
    let outcome = rt.on_mouse_down(WIN, &all_zero);
    assert!(!outcome.restart_mouse_or_touch_timer);
    assert!(Keyborg::is_navigating_with_keyboard(&rt, handle));
}

#[test]
fn touch_clears_keyboard_mode() {
    let mut rt = KeyborgRuntime::new();
    let handle = acquire(&mut rt, None);
    rt.on_key_down(WIN, &key("Tab", 9), &plain_element(3));
    let outcome = rt.on_touch(WIN);
    assert!(outcome.restart_mouse_or_touch_timer);
    assert!(!Keyborg::is_navigating_with_keyboard(&rt, handle));
}

#[test]
fn tab_triggers_regardless_of_trigger_keys_and_focus() {
    let mut rt = KeyborgRuntime::new();
    let props = KeyborgProps { trigger_keys: Some(vec![40]), dismiss_keys: None };
    let handle = acquire(&mut rt, Some(props));

    // Tab while an input field is focused, with a trigger set that does
    // not contain Tab's code, still switches keyboard mode on.
    rt.on_key_down(WIN, &key("Tab", 9), &input_element(3));
    assert!(Keyborg::is_navigating_with_keyboard(&rt, handle));
}

#[test]
fn configured_trigger_keys_limit_non_tab_keys() {
    let mut rt = KeyborgRuntime::new();
    let props = KeyborgProps { trigger_keys: Some(vec![40]), dismiss_keys: None };
    let handle = acquire(&mut rt, Some(props));

    // A key outside the trigger set does nothing.
    rt.on_key_down(WIN, &key("KeyA", 65), &plain_element(3));
    assert!(!Keyborg::is_navigating_with_keyboard(&rt, handle));

    // The configured trigger key switches keyboard mode on.
    rt.on_key_down(WIN, &key("ArrowDown", 40), &plain_element(3));
    assert!(Keyborg::is_navigating_with_keyboard(&rt, handle));
}

#[test]
fn text_editing_context_blocks_non_tab_triggers() {
    let mut rt = KeyborgRuntime::new();
    let handle = acquire(&mut rt, None);

    rt.on_key_down(WIN, &key("KeyA", 65), &input_element(3));
    assert!(!Keyborg::is_navigating_with_keyboard(&rt, handle));

    let textarea =
        Some(ActiveElement { id: 3, tag_name: "TEXTAREA".to_owned(), is_content_editable: false });
    rt.on_key_down(WIN, &key("Enter", 13), &textarea);
    assert!(!Keyborg::is_navigating_with_keyboard(&rt, handle));

    let editable =
        Some(ActiveElement { id: 3, tag_name: "DIV".to_owned(), is_content_editable: true });
    rt.on_key_down(WIN, &key("KeyA", 65), &editable);
    assert!(!Keyborg::is_navigating_with_keyboard(&rt, handle));

    // The same key on a plain element does trigger.
    rt.on_key_down(WIN, &key("KeyA", 65), &plain_element(3));
    assert!(Keyborg::is_navigating_with_keyboard(&rt, handle));
}

#[test]
fn escape_dismisses_only_when_focus_is_unchanged() {
    let mut rt = KeyborgRuntime::new();
    let props = KeyborgProps { trigger_keys: None, dismiss_keys: Some(vec![27]) };
    let handle = acquire(&mut rt, Some(props));
    rt.subscribe(handle, 100);
    rt.on_key_down(WIN, &key("Tab", 9), &plain_element(7));

    // Escape schedules a dismissal window with the focused element
    // snapshotted.
    let outcome = rt.on_key_down(WIN, &key("Escape", 27), &plain_element(7));
    assert!(outcome.schedule_dismiss_timer);
    assert!(Keyborg::is_navigating_with_keyboard(&rt, handle));

    // Focus unchanged when the window elapses: dismissed, exactly once.
    let out = rt.on_dismiss_timeout(WIN, Some(7));
    assert_eq!(out, vec![Notification { callback: 100, value: false }]);
    assert!(!Keyborg::is_navigating_with_keyboard(&rt, handle));

    // A second elapse finds no outstanding window and changes nothing.
    let out = rt.on_dismiss_timeout(WIN, Some(7));
    assert!(out.is_empty());

    // Now the variant where focus moves before the window elapses.
    rt.on_key_down(WIN, &key("Tab", 9), &plain_element(7));
    let outcome = rt.on_key_down(WIN, &key("Escape", 27), &plain_element(7));
    assert!(outcome.schedule_dismiss_timer);
    let out = rt.on_dismiss_timeout(WIN, Some(8));
    assert!(out.is_empty());
    assert!(Keyborg::is_navigating_with_keyboard(&rt, handle));
}

#[test]
fn non_dismiss_keys_schedule_nothing_in_keyboard_mode() {
    let mut rt = KeyborgRuntime::new();
    let props = KeyborgProps { trigger_keys: None, dismiss_keys: Some(vec![27]) };
    let handle = acquire(&mut rt, Some(props));
    rt.on_key_down(WIN, &key("Tab", 9), &plain_element(7));

    let outcome = rt.on_key_down(WIN, &key("KeyA", 65), &plain_element(7));
    assert!(!outcome.schedule_dismiss_timer);
    assert!(Keyborg::is_navigating_with_keyboard(&rt, handle));
}

#[test]
fn empty_configured_key_lists_count_as_unset() {
    let core = KeyborgCore::new(
        1,
        WIN,
        Some(KeyborgProps { trigger_keys: Some(Vec::new()), dismiss_keys: Some(Vec::new()) }),
    );
    assert!(core.trigger_keys.is_none());
    assert!(core.dismiss_keys.is_none());
}

#[test]
fn focus_in_without_related_target_is_no_evidence() {
    let mut rt = KeyborgRuntime::new();
    let handle = acquire(&mut rt, None);
    let details = KeyborgFocusInDetails {
        related_target: None,
        original_event: false,
        is_focused_programmatically: Some(false),
    };
    rt.on_keyborg_focus_in(WIN, &details);
    assert!(!Keyborg::is_navigating_with_keyboard(&rt, handle));
}

#[test]
fn programmatic_or_indeterminate_focus_in_is_ignored() {
    let mut rt = KeyborgRuntime::new();
    let handle = acquire(&mut rt, None);

    let programmatic = KeyborgFocusInDetails {
        related_target: Some(5),
        original_event: false,
        is_focused_programmatically: Some(true),
    };
    rt.on_keyborg_focus_in(WIN, &programmatic);
    assert!(!Keyborg::is_navigating_with_keyboard(&rt, handle));

    let indeterminate = KeyborgFocusInDetails {
        related_target: Some(5),
        original_event: false,
        is_focused_programmatically: None,
    };
    rt.on_keyborg_focus_in(WIN, &indeterminate);
    assert!(!Keyborg::is_navigating_with_keyboard(&rt, handle));
}

#[test]
fn subscribers_are_notified_in_subscription_order() {
    let mut rt = KeyborgRuntime::new();
    let handle = acquire(&mut rt, None);
    rt.subscribe(handle, 100);
    rt.subscribe(handle, 200);

    let out = rt.on_keyborg_focus_in(WIN, &focus_in_details());
    assert_eq!(
        out,
        vec![
            Notification { callback: 100, value: true },
            Notification { callback: 200, value: true },
        ]
    );
}

#[test]
fn unsubscribe_removes_a_callback_and_tolerates_absentees() {
    let mut rt = KeyborgRuntime::new();
    let handle = acquire(&mut rt, None);
    rt.subscribe(handle, 100);
    rt.subscribe(handle, 200);
    rt.unsubscribe(handle, 100);
    // Removing a callback that was never subscribed is a no-op.
    rt.unsubscribe(handle, 999);

    let out = rt.on_keyborg_focus_in(WIN, &focus_in_details());
    assert_eq!(out, vec![Notification { callback: 200, value: true }]);
}

#[test]
fn keyborg_instance_fan_out_order() {
    let mut k = Keyborg::new(1);
    k.subscribe(100);
    k.subscribe(200);
    k.subscribe(100);
    let out = k.update(true);
    assert_eq!(
        out,
        vec![
            Notification { callback: 100, value: true },
            Notification { callback: 200, value: true },
            Notification { callback: 100, value: true },
        ]
    );
    // Unsubscribing removes only the first record of the token.
    k.unsubscribe(100);
    let out = k.update(false);
    assert_eq!(
        out,
        vec![
            Notification { callback: 200, value: false },
            Notification { callback: 100, value: false },
        ]
    );
}
