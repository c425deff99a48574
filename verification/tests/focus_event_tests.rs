//! The focus-event normalization layer: boundary-registry bookkeeping and
//! canonical event synthesis.

use keyborg::focus_event::{
    dispose_focus_event, on_focus_in_event, on_focus_out_event, record_programmatic_focus,
    setup_focus_event, ChainLevel, EventListenerMap, FocusEventName, FocusEventSystem,
    FocusSetupInput, FocusTarget, KeyborgData, KeyborgDataList, NativeFocusIn, PathNode,
};

const WIN: u64 = 1;
const DOC: u64 = 10;

fn plain_setup() -> FocusSetupInput {
    FocusSetupInput { doc: DOC, can_override_probe: true, active_chain: Vec::new() }
}

fn set_up_system() -> FocusEventSystem {
    let mut sys = FocusEventSystem::new();
    let result = setup_focus_event(&mut sys, WIN, &plain_setup());
    assert!(result.performed);
    sys
}

fn path(nodes: &[(u64, bool)]) -> Vec<PathNode> {
    nodes.iter().map(|&(id, is_shadow_root)| PathNode { id, is_shadow_root }).collect()
}

fn event(target: Option<FocusTarget>, nodes: &[(u64, bool)]) -> NativeFocusIn {
    NativeFocusIn { target, composed_path: path(nodes), related_target: None }
}

fn registry(sys: &FocusEventSystem) -> Vec<u64> {
    sys.keyborg_data_list.find(WIN).expect("environment is set up").shadow_targets.clone()
}

#[test]
fn setup_attaches_document_listeners_and_is_idempotent() {
    let mut sys = set_up_system();
    assert_eq!(sys.event_listener_map.listed_targets(FocusEventName::FocusIn), vec![DOC]);
    assert_eq!(sys.event_listener_map.listed_targets(FocusEventName::FocusOut), vec![DOC]);
    assert!(sys.can_override_native_focus);

    // Re-invoking setup on an environment that already carries state is
    // a no-op.
    let again = setup_focus_event(&mut sys, WIN, &plain_setup());
    assert!(!again.performed);
    assert!(again.attached_shadow_roots.is_empty());
    assert_eq!(sys.event_listener_map.listed_targets(FocusEventName::FocusIn), vec![DOC]);
}

#[test]
fn startup_catch_up_attaches_each_nested_level() {
    let mut sys = FocusEventSystem::new();
    let setup = FocusSetupInput {
        doc: DOC,
        can_override_probe: false,
        active_chain: vec![
            ChainLevel { host: 20, root: 100 },
            ChainLevel { host: 21, root: 101 },
        ],
    };
    let result = setup_focus_event(&mut sys, WIN, &setup);
    assert!(result.performed);
    assert_eq!(result.attached_shadow_roots, vec![100, 101]);
    assert_eq!(registry(&sys), vec![100, 101]);
    assert_eq!(
        sys.event_listener_map.listed_targets(FocusEventName::FocusIn),
        vec![DOC, 100, 101]
    );
}

#[test]
fn nested_focus_dispatches_once_on_the_leaf() {
    // Focusing an element nested inside two levels of open encapsulated
    // sub-trees: one canonical focus-in, on the innermost leaf target,
    // and one registry entry per level while focus remains inside.
    let mut sys = set_up_system();

    // One native focus event is re-observed at every listener depth:
    // the full propagation path is the same each time, while the target
    // is retargeted to that depth's boundary host.
    let full_path: &[(u64, bool)] =
        &[(22, false), (101, true), (21, false), (100, true), (20, false), (DOC, false)];

    // The document listener sees the outer host; its open sub-tree root
    // is not registered yet.
    let ev1 = event(Some(FocusTarget { id: 20, shadow_root: Some(100) }), full_path);
    let r1 = on_focus_in_event(&mut sys, WIN, &ev1);
    assert_eq!(r1.attached_shadow_root, Some(100));
    assert!(r1.dispatch.is_none());
    assert!(r1.detached_shadow_roots.is_empty());
    assert_eq!(registry(&sys), vec![100]);

    // The freshly attached listener on the first root sees the
    // second-level host.
    let ev2 = event(Some(FocusTarget { id: 21, shadow_root: Some(101) }), full_path);
    let r2 = on_focus_in_event(&mut sys, WIN, &ev2);
    assert_eq!(r2.attached_shadow_root, Some(101));
    assert!(r2.dispatch.is_none());
    assert_eq!(registry(&sys), vec![100, 101]);

    // Re-observed at the document depth, the outer root is already
    // registered: no double attachment, no dispatch.
    let r1again = on_focus_in_event(&mut sys, WIN, &ev1);
    assert!(r1again.attached_shadow_root.is_none());
    assert!(r1again.dispatch.is_none());
    assert_eq!(registry(&sys), vec![100, 101]);

    // The innermost listener sees the genuine leaf target: exactly one
    // canonical focus-in, dispatched on it.
    let ev3 = event(Some(FocusTarget { id: 22, shadow_root: None }), full_path);
    let r3 = on_focus_in_event(&mut sys, WIN, &ev3);
    assert!(r3.attached_shadow_root.is_none());
    let dispatch = r3.dispatch.expect("leaf target gets the canonical focus-in");
    assert_eq!(dispatch.target, 22);
    assert_eq!(registry(&sys), vec![100, 101]);
    assert_eq!(
        sys.event_listener_map.listed_targets(FocusEventName::FocusIn),
        vec![DOC, 100, 101]
    );

    // Moving focus entirely outside removes both entries and their
    // listeners.
    let ev4 = event(Some(FocusTarget { id: 30, shadow_root: None }), &[(30, false), (DOC, false)]);
    let r4 = on_focus_in_event(&mut sys, WIN, &ev4);
    assert_eq!(r4.detached_shadow_roots, vec![100, 101]);
    assert!(registry(&sys).is_empty());
    assert_eq!(sys.event_listener_map.listed_targets(FocusEventName::FocusIn), vec![DOC]);
    assert_eq!(sys.event_listener_map.listed_targets(FocusEventName::FocusOut), vec![DOC]);
}

#[test]
fn stale_registry_entries_are_pruned_silently() {
    let mut sys = set_up_system();
    let ev = event(
        Some(FocusTarget { id: 20, shadow_root: Some(100) }),
        &[(25, false), (100, true), (20, false), (DOC, false)],
    );
    on_focus_in_event(&mut sys, WIN, &ev);
    assert_eq!(registry(&sys), vec![100]);

    // The root is gone from every later path (reclaimed, or focus left):
    // the next focus-in pass prunes the entry without erroring.
    let ev2 = event(Some(FocusTarget { id: 31, shadow_root: None }), &[(31, false), (DOC, false)]);
    let r = on_focus_in_event(&mut sys, WIN, &ev2);
    assert_eq!(r.detached_shadow_roots, vec![100]);
    assert!(registry(&sys).is_empty());
}

#[test]
fn focus_in_without_target_is_ignored() {
    let mut sys = set_up_system();
    let r = on_focus_in_event(&mut sys, WIN, &event(None, &[(DOC, false)]));
    assert!(r.detached_shadow_roots.is_empty());
    assert!(r.attached_shadow_root.is_none());
    assert!(r.dispatch.is_none());
}

#[test]
fn canonical_focus_in_carries_related_target() {
    let mut sys = set_up_system();
    let ev = NativeFocusIn {
        target: Some(FocusTarget { id: 40, shadow_root: None }),
        composed_path: path(&[(40, false), (DOC, false)]),
        related_target: Some(39),
    };
    let r = on_focus_in_event(&mut sys, WIN, &ev);
    let dispatch = r.dispatch.expect("leaf target gets the canonical focus-in");
    assert_eq!(dispatch.details.related_target, Some(39));
    assert!(!dispatch.details.original_event);
}

#[test]
fn programmatic_focus_is_tagged_and_the_record_cleared() {
    let mut sys = set_up_system();
    record_programmatic_focus(&mut sys, WIN, 50);

    let ev = event(Some(FocusTarget { id: 50, shadow_root: None }), &[(50, false), (DOC, false)]);
    let r = on_focus_in_event(&mut sys, WIN, &ev);
    let dispatch = r.dispatch.expect("leaf target gets the canonical focus-in");
    assert_eq!(dispatch.details.is_focused_programmatically, Some(true));

    // The record is cleared: the next focus of the same element is not
    // programmatic (detection is available, so the flag is present).
    let r = on_focus_in_event(&mut sys, WIN, &ev);
    let dispatch = r.dispatch.expect("leaf target gets the canonical focus-in");
    assert_eq!(dispatch.details.is_focused_programmatically, Some(false));
}

#[test]
fn focus_moved_by_keyboard_is_not_programmatic() {
    let mut sys = set_up_system();
    let ev = event(Some(FocusTarget { id: 51, shadow_root: None }), &[(51, false), (DOC, false)]);
    let r = on_focus_in_event(&mut sys, WIN, &ev);
    let dispatch = r.dispatch.expect("leaf target gets the canonical focus-in");
    assert_eq!(dispatch.details.is_focused_programmatically, Some(false));
}

#[test]
fn without_detection_or_record_the_flag_is_absent() {
    let mut sys = FocusEventSystem::new();
    let setup = FocusSetupInput { doc: DOC, can_override_probe: false, active_chain: Vec::new() };
    setup_focus_event(&mut sys, WIN, &setup);
    assert!(!sys.can_override_native_focus);

    let ev = event(Some(FocusTarget { id: 52, shadow_root: None }), &[(52, false), (DOC, false)]);
    let r = on_focus_in_event(&mut sys, WIN, &ev);
    let dispatch = r.dispatch.expect("leaf target gets the canonical focus-in");
    assert_eq!(dispatch.details.is_focused_programmatically, None);

    // A pending programmatic record makes the flag present even without
    // detection.
    record_programmatic_focus(&mut sys, WIN, 52);
    let r = on_focus_in_event(&mut sys, WIN, &ev);
    let dispatch = r.dispatch.expect("leaf target gets the canonical focus-in");
    assert_eq!(dispatch.details.is_focused_programmatically, Some(true));
}

#[test]
fn focus_out_is_synthesized_unconditionally() {
    let r = on_focus_out_event(&Some(60)).expect("a target gets the canonical focus-out");
    assert_eq!(r.target, 60);
    assert!(r.original_event);
    assert!(on_focus_out_event(&None).is_none());
}

#[test]
fn teardown_detaches_everything_and_restores_focus() {
    let mut sys = set_up_system();
    let ev = event(
        Some(FocusTarget { id: 20, shadow_root: Some(100) }),
        &[(25, false), (100, true), (20, false), (DOC, false)],
    );
    on_focus_in_event(&mut sys, WIN, &ev);

    let r = dispose_focus_event(&mut sys, WIN);
    assert!(r.performed);
    assert_eq!(r.doc, DOC);
    assert_eq!(r.detached_shadow_roots, vec![100]);
    assert!(r.restore_native_focus);
    assert!(sys.keyborg_data_list.find(WIN).is_none());
    assert!(sys.event_listener_map.listed_targets(FocusEventName::FocusIn).is_empty());
    assert!(sys.event_listener_map.listed_targets(FocusEventName::FocusOut).is_empty());

    // Teardown of an environment that carries no state is a safe no-op.
    let r = dispose_focus_event(&mut sys, WIN);
    assert!(!r.performed);
    assert!(!r.restore_native_focus);
}

#[test]
fn programmatic_record_on_an_unknown_environment_is_dropped() {
    let mut sys = FocusEventSystem::new();
    record_programmatic_focus(&mut sys, WIN, 50);
    assert!(sys.keyborg_data_list.find(WIN).is_none());
}

#[test]
fn event_listener_map_insert_and_remove() {
    let mut map = EventListenerMap::new();
    map.insert(7, FocusEventName::FocusIn);
    map.insert(8, FocusEventName::FocusIn);
    map.insert(7, FocusEventName::FocusOut);
    assert_eq!(map.listed_targets(FocusEventName::FocusIn), vec![7, 8]);
    assert_eq!(map.listed_targets(FocusEventName::FocusOut), vec![7]);

    map.remove(7, FocusEventName::FocusIn);
    assert_eq!(map.listed_targets(FocusEventName::FocusIn), vec![8]);
    assert_eq!(map.listed_targets(FocusEventName::FocusOut), vec![7]);

    // Removing a target that is not recorded is a no-op.
    map.remove(99, FocusEventName::FocusIn);
    assert_eq!(map.listed_targets(FocusEventName::FocusIn), vec![8]);
}

#[test]
fn keyborg_data_list_push_find_remove() {
    let mut list = KeyborgDataList::new();
    assert!(list.find(WIN).is_none());
    list.push(
        WIN,
        KeyborgData { doc: DOC, shadow_targets: vec![100], last_focused_programmatically: None },
    );
    let found = list.find(WIN).expect("pushed entry is found");
    assert_eq!(found.doc, DOC);
    assert_eq!(found.shadow_targets, vec![100]);
    list.remove(WIN);
    assert!(list.find(WIN).is_none());
    // Removing an environment that is not recorded is a no-op.
    list.remove(WIN);
}
