//! The navigation-mode state machine and the shared-context registry.
//!
//! `IsNavigatingWithKeyboard` holds the single "keyboard navigation active"
//! flag; `KeyborgCore` owns the deterministic rules that flip it from raw
//! input events; `KeyborgRuntime` is the process-lifetime registry that
//! hands out reference-counted `Keyborg` handles, one shared core per
//! environment.

use vstd::prelude::*;

verus! {

/// A state-change notification owed to one subscriber callback.
///
/// The host binding keeps the actual closures; the library identifies a
/// callback by the token under which it was subscribed.
#[derive(Clone, Copy, Debug, PartialEq, Eq, Structural)]
pub struct Notification {
    pub callback: u64,
    pub value: bool,
}

/// The notifications owed to an ordered list of callback tokens.
pub open spec fn notifications_for(cbs: Seq<u64>, value: bool) -> Seq<Notification> {
    cbs.map(|i: int, c: u64| Notification { callback: c, value })
}

/// One consumer instance: an identifier plus its own ordered subscriber
/// list.  Instances are recorded in the registry under the environment
/// whose shared core they observe; fan-out walks every instance of that
/// environment in registration order.
pub struct Keyborg {
    pub id: u64,
    pub cb: Vec<u64>,
}

/// The notifications owed by a list of instances for one new flag value:
/// each instance's callbacks in subscription order, instances in
/// registration order.
pub open spec fn fan_out(refs: Seq<Keyborg>, value: bool) -> Seq<Notification>
    decreases refs.len(),
{
    if refs.len() == 0 {
        Seq::empty()
    } else {
        notifications_for(refs.first().callbacks(), value) + fan_out(refs.drop_first(), value)
    }
}

proof fn lemma_fan_out_take_step(refs: Seq<Keyborg>, value: bool, i: int)
    requires
        0 <= i < refs.len(),
    ensures
        fan_out(refs.take(i + 1), value) == fan_out(refs.take(i), value) + notifications_for(
            refs[i].callbacks(),
            value,
        ),
    decreases i,
{
    if i == 0 {
        assert(refs.take(1).drop_first() =~= Seq::<Keyborg>::empty());
        assert(refs.take(0) =~= Seq::<Keyborg>::empty());
        assert(fan_out(refs.take(1), value) =~= notifications_for(refs[0].callbacks(), value));
    } else {
        let tail = refs.drop_first();
        lemma_fan_out_take_step(tail, value, i - 1);
        assert(refs.take(i + 1).drop_first() =~= tail.take(i));
        assert(refs.take(i).drop_first() =~= tail.take(i - 1));
        assert(refs.take(i + 1).first() == refs.first());
        assert(refs.take(i).first() == refs.first());
        assert(tail[i - 1] == refs[i]);
        assert(fan_out(refs.take(i + 1), value) == notifications_for(
            refs.first().callbacks(),
            value,
        ) + fan_out(tail.take(i), value));
        assert(fan_out(refs.take(i), value) == notifications_for(refs.first().callbacks(), value)
            + fan_out(tail.take(i - 1), value));
        assert(fan_out(refs.take(i + 1), value) =~= fan_out(refs.take(i), value)
            + notifications_for(refs[i].callbacks(), value));
    }
}

impl Keyborg {
    /// The instance's callback tokens, in subscription order.
    pub open spec fn callbacks(&self) -> Seq<u64> {
        self.cb@
    }

    /// A fresh instance with no subscribers yet.
    pub fn new(id: u64) -> (r: Self)
        ensures
            r.id == id,
            r.callbacks() == Seq::<u64>::empty(),
    {
        Keyborg { id, cb: Vec::new() }
    }

    /// Updates this instance's subscribers with the navigation state:
    /// one notification per callback, in subscription order.
    pub fn update(&self, is_navigating_with_keyboard: bool) -> (out: Vec<Notification>)
        ensures
            out@ == notifications_for(self.callbacks(), is_navigating_with_keyboard),
    {
        let mut out: Vec<Notification> = Vec::new();
        let mut i: usize = 0;
        while i < self.cb.len()
            invariant
                i <= self.cb.len(),
                out@.len() == i,
                forall|j: int|
                    0 <= j < i ==> out@[j] == (Notification {
                        callback: self.cb@[j],
                        value: is_navigating_with_keyboard,
                    }),
            decreases self.cb.len() - i,
        {
            out.push(Notification { callback: self.cb[i], value: is_navigating_with_keyboard });
            i = i + 1;
        }
        proof {
            assert(out@ =~= notifications_for(self.callbacks(), is_navigating_with_keyboard));
        }
        out
    }

    /// Registers a callback token; it will be called on every state change
    /// until it is unsubscribed.
    pub fn subscribe(&mut self, callback: u64)
        ensures
            final(self).id == old(self).id,
            final(self).callbacks() == old(self).callbacks().push(callback),
    {
        self.cb.push(callback);
    }

    /// Removes the first subscription recorded under this token;
    /// unsubscribing a token that is not present is a no-op.
    pub fn unsubscribe(&mut self, callback: u64)
        ensures
            final(self).id == old(self).id,
            final(self).callbacks() == old(self).callbacks().remove_value(callback),
    {
        crate::focus_event::remove_first_value(&mut self.cb, callback);
    }
}

/// The "is the user navigating with the keyboard" flag.
///
/// A write only counts as a change when the new value differs from the
/// stored one; only such writes owe notifications to subscribers.
pub struct IsNavigatingWithKeyboard {
    do_not_use: bool,
}

impl IsNavigatingWithKeyboard {
    /// The stored flag, as contracts see it.
    pub closed spec fn value(&self) -> bool {
        self.do_not_use
    }

    /// Starts out false: pointer navigation is the default assumption.
    pub fn new() -> (r: Self)
        ensures
            !r.value(),
    {
        Self { do_not_use: false }
    }

    pub fn get(&self) -> (r: bool)
        ensures
            r == self.value(),
    {
        self.do_not_use
    }

    /// Stores the value.  The result says whether it differed from the old
    /// one, which is exactly when subscribers must be updated.
    pub fn set(&mut self, val: bool) -> (changed: bool)
        ensures
            final(self).value() == val,
            changed == (old(self).value() != val),
    {
        if self.do_not_use != val {
            self.do_not_use = val;
            true
        } else {
            false
        }
    }

    /// Updates every given instance with the stored navigation state, in
    /// registration order.
    pub fn update(&self, refs: &Vec<Keyborg>) -> (out: Vec<Notification>)
        ensures
            out@ == fan_out(refs@, self.value()),
    {
        let mut out: Vec<Notification> = Vec::new();
        let mut i: usize = 0;
        while i < refs.len()
            invariant
                i <= refs.len(),
                out@ == fan_out(refs@.take(i as int), self.value()),
            decreases refs.len() - i,
        {
            let mut one = refs[i].update(self.do_not_use);
            proof {
                lemma_fan_out_take_step(refs@, self.value(), i as int);
            }
            out.append(&mut one);
            i = i + 1;
        }
        proof {
            assert(refs@.take(refs@.len() as int) =~= refs@);
        }
        out
    }
}

/// Configuration for a shared core; fixed by the first acquisition for an
/// environment.
#[derive(Clone)]
pub struct KeyborgProps {
    /// Key codes that may trigger keyboard-navigation mode; unset means
    /// any key may trigger it.
    pub trigger_keys: Option<Vec<u32>>,
    /// Key codes that may schedule dismissal of keyboard-navigation mode;
    /// unset means no key dismisses it.
    pub dismiss_keys: Option<Vec<u32>>,
}

/// What the host reports about the currently focused element when a key
/// goes down.
#[derive(Clone)]
pub struct ActiveElement {
    /// The node identity of the focused element.
    pub id: u64,
    /// Its tag name, upper-case as the host reports it.
    pub tag_name: String,
    /// Whether the element is marked content-editable.
    pub is_content_editable: bool,
}

/// A raw key-down event, reduced to what the rules read.
pub struct KeyDownInput {
    /// The key name, such as "Tab" or "Escape".
    pub key: String,
    /// The numeric key code.
    pub key_code: u32,
}

/// A raw pointer-down event, reduced to what the rules read.
pub struct MouseDownInput {
    pub buttons: u16,
    pub client_x: i32,
    pub client_y: i32,
    pub screen_x: i32,
    pub screen_y: i32,
}

/// An outstanding dismissal window: the focused element snapshotted when
/// the dismiss key went down.
#[derive(Clone, Copy)]
pub struct DismissTimer {
    pub snapshot: Option<u64>,
}

/// Result of a pointer-down event.
pub struct PointerOutcome {
    /// False when the event looked synthesized by assistive technology
    /// (no buttons, or all coordinates zero) and was ignored; true when
    /// the pointer-activity window must be (re)started.
    pub genuine: bool,
    /// Whether the navigation flag changed (subscribers are owed
    /// notifications exactly then).
    pub changed: bool,
}

/// Result of a key-down event.
pub struct KeyDownOutcome {
    /// True when a dismissal window must be (re)started.
    pub schedule_dismiss: bool,
    /// Whether the navigation flag changed.
    pub changed: bool,
}

/// When a key from the dismiss set is pressed and focus has not moved for
/// this many milliseconds, keyboard-navigation mode is dismissed.
pub const DISMISS_TIMEOUT: u64 = 500;

/// How long after a genuine pointer or touch event a focus change is
/// still credited to the pointer, in milliseconds.
pub const MOUSE_OR_TOUCH_TIMEOUT: u64 = 1000;

/// Whether a configured key set admits `code`; an unset trigger set
/// admits every key.
pub open spec fn trigger_allows(keys: Option<Seq<u32>>, code: u32) -> bool {
    match keys {
        Some(s) => s.contains(code),
        None => true,
    }
}

/// Whether a configured dismiss set contains `code`; an unset dismiss set
/// dismisses on no key.
pub open spec fn dismiss_contains(keys: Option<Seq<u32>>, code: u32) -> bool {
    match keys {
        Some(s) => s.contains(code),
        None => false,
    }
}

/// The traversal key always counts as keyboard navigation.
pub open spec fn is_tab(key: Seq<char>) -> bool {
    key == "Tab"@
}

/// Whether the focused element is a text-editing context: a text input
/// field, a text area, or any element marked content-editable.
pub open spec fn is_text_editing(active_element: Option<ActiveElement>) -> bool {
    match active_element {
        Some(a) => a.tag_name@ == "INPUT"@ || a.tag_name@ == "TEXTAREA"@
            || a.is_content_editable,
        None => false,
    }
}

/// Whether a key-down seen in non-keyboard mode switches keyboard
/// navigation on: Tab always does; any other key only if the trigger set
/// admits it and the focused element is not a text-editing context.
pub open spec fn spec_should_trigger(
    trigger_keys: Option<Seq<u32>>,
    key: Seq<char>,
    key_code: u32,
    active_element: Option<ActiveElement>,
) -> bool {
    is_tab(key) || (trigger_allows(trigger_keys, key_code) && !is_text_editing(active_element))
}

/// Whether a pointer-down is ignored as assistive-technology-synthesized:
/// no buttons pressed, or every positional coordinate zero.
pub open spec fn spec_pointer_down_ignored(e: MouseDownInput) -> bool {
    e.buttons == 0 || (e.client_x == 0 && e.client_y == 0 && e.screen_x == 0 && e.screen_y == 0)
}

/// Whether a fired dismissal window dismisses keyboard mode: both the
/// snapshotted and the current focused element must exist and be the same
/// element.
pub open spec fn spec_dismiss_fires(timer: Option<DismissTimer>, current_focus: Option<u64>) -> bool {
    match timer {
        Some(t) => match (t.snapshot, current_focus) {
            (Some(was), Some(cur)) => was == cur,
            _ => false,
        },
        None => false,
    }
}

/// The navigation flag after one canonical focus-in is observed: it
/// flips to keyboard exactly when no pointer-activity window is
/// outstanding, the flag is not already set, the related-target metadata
/// is present, and the focus is known not to be programmatic.
pub open spec fn focus_in_keyboard_step(
    keyboard: bool,
    mouse_or_touch_pending: bool,
    details: crate::focus_event::KeyborgFocusInDetails,
) -> bool {
    if !mouse_or_touch_pending && !keyboard && details.related_target is Some
        && details.is_focused_programmatically == Some(false) {
        true
    } else {
        keyboard
    }
}

/// A pointer-down or a canonical focus-in, as the navigation flag and
/// the pointer-activity window see them.
pub enum PointerOrFocusEvent {
    PointerDown(MouseDownInput),
    FocusIn(crate::focus_event::KeyborgFocusInDetails),
}

/// The pair (navigation flag, pointer-activity window outstanding) after
/// one pointer-down or canonical focus-in: a genuine pointer-down leaves
/// keyboard mode and opens the window, an ignored one changes nothing,
/// and a focus-in follows `focus_in_keyboard_step` without touching the
/// window.
pub open spec fn pointer_focus_step(
    keyboard: bool,
    mouse_or_touch_pending: bool,
    event: PointerOrFocusEvent,
) -> (bool, bool) {
    match event {
        PointerOrFocusEvent::PointerDown(e) => if spec_pointer_down_ignored(e) {
            (keyboard, mouse_or_touch_pending)
        } else {
            (false, true)
        },
        PointerOrFocusEvent::FocusIn(details) => (
            focus_in_keyboard_step(keyboard, mouse_or_touch_pending, details),
            mouse_or_touch_pending,
        ),
    }
}

/// The same pair after a whole sequence of pointer-downs and canonical
/// focus-ins, in order, with no window expiry in between.
pub open spec fn pointer_focus_steps(
    keyboard: bool,
    mouse_or_touch_pending: bool,
    events: Seq<PointerOrFocusEvent>,
) -> (bool, bool)
    decreases events.len(),
{
    if events.len() == 0 {
        (keyboard, mouse_or_touch_pending)
    } else {
        let next = pointer_focus_step(keyboard, mouse_or_touch_pending, events.first());
        pointer_focus_steps(next.0, next.1, events.drop_first())
    }
}

/// After a genuine pointer-down the navigation state is non-keyboard at
/// once, and through any further sequence of pointer-downs and canonical
/// focus-in events observed before the pointer-activity window elapses
/// it stays non-keyboard: within that window no focus change counts as
/// evidence of keyboard use.
pub proof fn lemma_pointer_window_blocks_focus_ins(events: Seq<PointerOrFocusEvent>)
    ensures
        pointer_focus_steps(false, true, events) == (false, true),
    decreases events.len(),
{
    if events.len() > 0 {
        lemma_pointer_window_blocks_focus_ins(events.drop_first());
    }
}

/// Pressing the traversal key (Tab) while the navigation state is
/// non-keyboard always switches it to keyboard, whatever trigger-key set
/// is configured and whatever element is focused.
pub proof fn lemma_tab_always_triggers(
    trigger_keys: Option<Seq<u32>>,
    key_code: u32,
    active_element: Option<ActiveElement>,
)
    ensures
        spec_should_trigger(trigger_keys, "Tab"@, key_code, active_element),
{
}

/// While a text-editing context is focused, no key other than Tab
/// switches the navigation state to keyboard, even with no trigger-key
/// restriction configured: text-entry keystrokes are no evidence of
/// navigational keyboard use.
pub proof fn lemma_text_editing_blocks_trigger(
    trigger_keys: Option<Seq<u32>>,
    key: Seq<char>,
    key_code: u32,
    active_element: Option<ActiveElement>,
)
    requires
        is_text_editing(active_element),
        !is_tab(key),
    ensures
        !spec_should_trigger(trigger_keys, key, key_code, active_element),
{
}

/// The per-environment engine: translates raw keyboard / pointer / touch
/// input into navigation-state transitions and owns the two one-shot
/// windows (recent pointer activity, pending dismissal).
pub struct KeyborgCore {
    pub id: u64,
    /// The environment this core is wired to.
    pub win: u64,
    /// True while the recent-pointer-activity window is outstanding.
    pub is_mouse_or_touch_used_timer: bool,
    /// The outstanding dismissal window, if any.
    pub dismiss_timer: Option<DismissTimer>,
    pub trigger_keys: Option<Vec<u32>>,
    pub dismiss_keys: Option<Vec<u32>>,
    pub is_navigating_with_keyboard: IsNavigatingWithKeyboard,
}

/// The non-empty key list of a configuration entry, as a spec-level set
/// of codes; an empty or absent list configures nothing.
pub open spec fn configured_keys(keys: Option<Vec<u32>>) -> Option<Seq<u32>> {
    match keys {
        Some(ks) => if ks@.len() > 0 {
            Some(ks@)
        } else {
            None
        },
        None => None,
    }
}

/// The trigger-key configuration a core is built with from `props`.
pub open spec fn props_trigger_keys(props: Option<KeyborgProps>) -> Option<Seq<u32>> {
    match props {
        Some(p) => configured_keys(p.trigger_keys),
        None => None,
    }
}

/// The dismiss-key configuration a core is built with from `props`.
pub open spec fn props_dismiss_keys(props: Option<KeyborgProps>) -> Option<Seq<u32>> {
    match props {
        Some(p) => configured_keys(p.dismiss_keys),
        None => None,
    }
}

/// Whether `list` contains `code`.
fn contains_code(list: &Vec<u32>, code: u32) -> (r: bool)
    ensures
        r == list@.contains(code),
{
    let mut i: usize = 0;
    while i < list.len()
        invariant
            i <= list.len(),
            forall|j: int| 0 <= j < i ==> list@[j] != code,
        decreases list.len() - i,
    {
        if list[i] == code {
            return true;
        }
        i = i + 1;
    }
    false
}

impl KeyborgCore {
    /// The trigger-key set as contracts see it.
    pub open spec fn trigger_keys_view(&self) -> Option<Seq<u32>> {
        match self.trigger_keys {
            Some(ks) => Some(ks@),
            None => None,
        }
    }

    /// The dismiss-key set as contracts see it.
    pub open spec fn dismiss_keys_view(&self) -> Option<Seq<u32>> {
        match self.dismiss_keys {
            Some(ks) => Some(ks@),
            None => None,
        }
    }

    /// Everything except the navigation flag and the two windows: fixed
    /// for the core's lifetime.
    pub open spec fn same_config(self, other: Self) -> bool {
        &&& self.id == other.id
        &&& self.win == other.win
        &&& self.trigger_keys == other.trigger_keys
        &&& self.dismiss_keys == other.dismiss_keys
    }

    /// Builds the engine for environment `win`.  An empty configured key
    /// list counts as unset, as does an absent configuration.
    pub fn new(id: u64, win: u64, props: Option<KeyborgProps>) -> (r: Self)
        ensures
            r.id == id,
            r.win == win,
            !r.is_mouse_or_touch_used_timer,
            r.dismiss_timer is None,
            !r.is_navigating_with_keyboard.value(),
            r.trigger_keys_view() == props_trigger_keys(props),
            r.dismiss_keys_view() == props_dismiss_keys(props),
    {
        let mut trigger_keys: Option<Vec<u32>> = None;
        let mut dismiss_keys: Option<Vec<u32>> = None;
        if let Some(props) = props {
            if let Some(keys) = props.trigger_keys {
                if keys.len() > 0 {
                    trigger_keys = Some(keys);
                }
            }
            if let Some(keys) = props.dismiss_keys {
                if keys.len() > 0 {
                    dismiss_keys = Some(keys);
                }
            }
        }
        KeyborgCore {
            id,
            win,
            is_mouse_or_touch_used_timer: false,
            dismiss_timer: None,
            trigger_keys,
            dismiss_keys,
            is_navigating_with_keyboard: IsNavigatingWithKeyboard::new(),
        }
    }

    /// Whether a canonical focus-in switches keyboard navigation on: no
    /// recent pointer activity, not already keyboard, the related-target
    /// metadata present, and the focus known not to be programmatic.
    pub open spec fn spec_focus_in_triggers(self, details: crate::focus_event::KeyborgFocusInDetails) -> bool {
        &&& !self.is_mouse_or_touch_used_timer
        &&& !self.is_navigating_with_keyboard.value()
        &&& details.related_target is Some
        &&& details.is_focused_programmatically == Some(false)
    }

    /// A canonical focus-in was observed.  When the focus moved to a new
    /// element with no recent pointer activity and not programmatically,
    /// that is keyboard-equivalent navigation (the screen-reader
    /// heuristic) and the flag is set; otherwise nothing changes.
    pub fn on_focus_in(&mut self, details: &crate::focus_event::KeyborgFocusInDetails) -> (changed:
        bool)
        ensures
            final(self).is_navigating_with_keyboard.value() == (old(self).spec_focus_in_triggers(
                *details,
            ) || old(self).is_navigating_with_keyboard.value()),
            final(self).is_navigating_with_keyboard.value() == focus_in_keyboard_step(
                old(self).is_navigating_with_keyboard.value(),
                old(self).is_mouse_or_touch_used_timer,
                *details,
            ),
            changed == old(self).spec_focus_in_triggers(*details),
            final(self).same_config(*old(self)),
            final(self).is_mouse_or_touch_used_timer == old(self).is_mouse_or_touch_used_timer,
            final(self).dismiss_timer == old(self).dismiss_timer,
    {
        if self.is_mouse_or_touch_used_timer {
            // There was a mouse or touch event recently.
            return false;
        }
        if self.is_navigating_with_keyboard.get() {
            return false;
        }
        if details.related_target.is_none() {
            // No evidence either way.
            return false;
        }
        match details.is_focused_programmatically {
            Some(false) => {
                self.is_navigating_with_keyboard.set(true)
            },
            _ => {
                // The element is focused programmatically, or programmatic
                // focus detection is not working.
                false
            },
        }
    }

    /// Genuine pointer or touch input: open the pointer-activity window
    /// (the caller must restart the host timer) and leave keyboard mode.
    pub fn on_mouse_or_touch(&mut self) -> (changed: bool)
        ensures
            final(self).is_mouse_or_touch_used_timer,
            !final(self).is_navigating_with_keyboard.value(),
            changed == old(self).is_navigating_with_keyboard.value(),
            final(self).same_config(*old(self)),
            final(self).dismiss_timer == old(self).dismiss_timer,
    {
        // Keeping the indication of mouse or touch usage for some time.
        self.is_mouse_or_touch_used_timer = true;
        self.is_navigating_with_keyboard.set(false)
    }

    /// A pointer-down was observed.  Events with no buttons pressed or
    /// with every coordinate zero are most likely synthesized by a screen
    /// reader to perform an action and are ignored; anything else is
    /// genuine pointer input.
    pub fn on_mouse_down(&mut self, e: &MouseDownInput) -> (r: PointerOutcome)
        ensures
            r.genuine == !spec_pointer_down_ignored(*e),
            r.genuine ==> final(self).is_mouse_or_touch_used_timer,
            r.genuine ==> !final(self).is_navigating_with_keyboard.value(),
            r.genuine ==> r.changed == old(self).is_navigating_with_keyboard.value(),
            !r.genuine ==> *final(self) == *old(self) && !r.changed,
            final(self).same_config(*old(self)),
            final(self).dismiss_timer == old(self).dismiss_timer,
    {
        if e.buttons == 0 || (e.client_x == 0 && e.client_y == 0 && e.screen_x == 0 && e.screen_y
            == 0) {
            PointerOutcome { genuine: false, changed: false }
        } else {
            let changed = self.on_mouse_or_touch();
            PointerOutcome { genuine: true, changed }
        }
    }

    /// Whether this key-down schedules a dismissal window.
    fn should_dismiss_keyboard_navigation(&self, key: &KeyDownInput) -> (r: bool)
        ensures
            r == dismiss_contains(self.dismiss_keys_view(), key.key_code),
    {
        match &self.dismiss_keys {
            Some(keys) => contains_code(keys, key.key_code),
            None => false,
        }
    }

    /// Whether this key-down should switch keyboard navigation on.
    fn should_trigger_keyboard_navigation(
        &self,
        key: &KeyDownInput,
        active_element: &Option<ActiveElement>,
    ) -> (r: bool)
        ensures
            r == spec_should_trigger(
                self.trigger_keys_view(),
                key.key@,
                key.key_code,
                *active_element,
            ),
    {
        let tab: String = "Tab".to_owned();
        if key.key == tab {
            return true;
        }
        let is_trigger_key = match &self.trigger_keys {
            Some(keys) => contains_code(keys, key.key_code),
            None => true,
        };
        let is_editable = match active_element {
            Some(a) => {
                let input_tag: String = "INPUT".to_owned();
                let textarea_tag: String = "TEXTAREA".to_owned();
                if a.tag_name == input_tag || a.tag_name == textarea_tag {
                    true
                } else {
                    a.is_content_editable
                }
            },
            None => false,
        };
        is_trigger_key && !is_editable
    }

    /// A key-down was observed.  In keyboard mode, a key from the dismiss
    /// set schedules a dismissal window snapshotting the focused element;
    /// out of keyboard mode, a triggering key switches keyboard mode on.
    pub fn on_key_down(&mut self, key: &KeyDownInput, active_element: &Option<ActiveElement>) -> (r:
        KeyDownOutcome)
        ensures
            old(self).is_navigating_with_keyboard.value() ==> {
                &&& r.schedule_dismiss == dismiss_contains(
                    old(self).dismiss_keys_view(),
                    key.key_code,
                )
                &&& !r.changed
                &&& final(self).is_navigating_with_keyboard == old(self).is_navigating_with_keyboard
                &&& (r.schedule_dismiss ==> final(self).dismiss_timer == Some(
                    DismissTimer {
                        snapshot: match *active_element {
                            Some(a) => Some(a.id),
                            None => None,
                        },
                    },
                ))
                &&& (!r.schedule_dismiss ==> final(self).dismiss_timer == old(self).dismiss_timer)
            },
            !old(self).is_navigating_with_keyboard.value() ==> {
                &&& !r.schedule_dismiss
                &&& final(self).dismiss_timer == old(self).dismiss_timer
                &&& r.changed == spec_should_trigger(
                    old(self).trigger_keys_view(),
                    key.key@,
                    key.key_code,
                    *active_element,
                )
                &&& final(self).is_navigating_with_keyboard.value() == r.changed
            },
            final(self).same_config(*old(self)),
            final(self).is_mouse_or_touch_used_timer == old(self).is_mouse_or_touch_used_timer,
    {
        if self.is_navigating_with_keyboard.get() {
            if self.should_dismiss_keyboard_navigation(key) {
                let snapshot = match active_element {
                    Some(a) => Some(a.id),
                    None => None,
                };
                self.schedule_dismiss(snapshot);
                KeyDownOutcome { schedule_dismiss: true, changed: false }
            } else {
                KeyDownOutcome { schedule_dismiss: false, changed: false }
            }
        } else {
            if self.should_trigger_keyboard_navigation(key, active_element) {
                let changed = self.is_navigating_with_keyboard.set(true);
                KeyDownOutcome { schedule_dismiss: false, changed }
            } else {
                KeyDownOutcome { schedule_dismiss: false, changed: false }
            }
        }
    }

    /// Opens (or replaces) the dismissal window with a fresh snapshot of
    /// the focused element; the caller must restart the host timer.
    fn schedule_dismiss(&mut self, snapshot: Option<u64>)
        ensures
            final(self).dismiss_timer == Some(DismissTimer { snapshot }),
            final(self).same_config(*old(self)),
            final(self).is_mouse_or_touch_used_timer == old(self).is_mouse_or_touch_used_timer,
            final(self).is_navigating_with_keyboard == old(self).is_navigating_with_keyboard,
    {
        self.dismiss_timer = Some(DismissTimer { snapshot });
    }

    /// The pointer-activity window elapsed.
    pub fn on_mouse_or_touch_timeout(&mut self)
        ensures
            !final(self).is_mouse_or_touch_used_timer,
            final(self).same_config(*old(self)),
            final(self).dismiss_timer == old(self).dismiss_timer,
            final(self).is_navigating_with_keyboard == old(self).is_navigating_with_keyboard,
    {
        self.is_mouse_or_touch_used_timer = false;
    }

    /// The dismissal window elapsed.  Only when the focused element is
    /// unchanged from the snapshot (and both exist) is keyboard mode
    /// dismissed; any focus change in between keeps it.
    pub fn on_dismiss_timeout(&mut self, current_focus: Option<u64>) -> (changed: bool)
        ensures
            final(self).dismiss_timer is None,
            final(self).is_navigating_with_keyboard.value() == (old(self).is_navigating_with_keyboard.value()
                && !spec_dismiss_fires(old(self).dismiss_timer, current_focus)),
            changed == (old(self).is_navigating_with_keyboard.value() && spec_dismiss_fires(
                old(self).dismiss_timer,
                current_focus,
            )),
            final(self).same_config(*old(self)),
            final(self).is_mouse_or_touch_used_timer == old(self).is_mouse_or_touch_used_timer,
    {
        let timer = self.dismiss_timer;
        self.dismiss_timer = None;
        match timer {
            Some(t) => {
                match (t.snapshot, current_focus) {
                    (Some(was), Some(cur)) => {
                        if was == cur {
                            // The dismiss key was pressed and the focused
                            // element has not changed: dismiss keyboard
                            // navigation mode.
                            self.is_navigating_with_keyboard.set(false)
                        } else {
                            false
                        }
                    },
                    _ => false,
                }
            },
            None => false,
        }
    }
}

/// The shared state of one environment: the engine plus every live
/// instance observing it, in registration order.
pub struct KeyborgMap {
    pub core: KeyborgCore,
    pub refs: Vec<Keyborg>,
}

impl KeyborgMap {
    pub fn new(core: KeyborgCore) -> (r: Self)
        ensures
            r.core == core,
            r.refs@ == Seq::<Keyborg>::empty(),
    {
        Self { core, refs: Vec::new() }
    }
}

/// One environment's slot in the registry.
pub struct EnvEntry {
    pub win: u64,
    pub map: KeyborgMap,
}

/// Whether some entry is keyed by `win`.
pub open spec fn spec_env_contains(envs: Seq<EnvEntry>, win: u64) -> bool {
    exists|i: int| 0 <= i < envs.len() && envs[i].win == win
}

/// The index of the first entry keyed by `win`; meaningful only when one
/// exists.
pub open spec fn spec_env_index(envs: Seq<EnvEntry>, win: u64) -> int
    decreases envs.len(),
{
    if envs.len() == 0 {
        0
    } else if envs.first().win == win {
        0
    } else {
        1 + spec_env_index(envs.drop_first(), win)
    }
}

/// Whether `refs` holds an instance with identifier `id`.
pub open spec fn refs_has_id(refs: Seq<Keyborg>, id: u64) -> bool {
    exists|j: int| 0 <= j < refs.len() && refs[j].id == id
}

/// The index of the first instance with identifier `id`; meaningful only
/// when one exists.
pub open spec fn refs_id_index(refs: Seq<Keyborg>, id: u64) -> int
    decreases refs.len(),
{
    if refs.len() == 0 {
        0
    } else if refs.first().id == id {
        0
    } else {
        1 + refs_id_index(refs.drop_first(), id)
    }
}

/// Whether some environment holds an instance with identifier `id`.
pub open spec fn spec_handle_exists(envs: Seq<EnvEntry>, id: u64) -> bool {
    exists|i: int| 0 <= i < envs.len() && refs_has_id(envs[i].map.refs@, id)
}

/// The index of the first environment holding an instance with
/// identifier `id`; meaningful only when one exists.
pub open spec fn spec_handle_env_index(envs: Seq<EnvEntry>, id: u64) -> int
    decreases envs.len(),
{
    if envs.len() == 0 {
        0
    } else if refs_has_id(envs.first().map.refs@, id) {
        0
    } else {
        1 + spec_handle_env_index(envs.drop_first(), id)
    }
}

proof fn lemma_env_found_at(envs: Seq<EnvEntry>, win: u64, i: int)
    requires
        0 <= i < envs.len(),
        envs[i].win == win,
        forall|j: int| 0 <= j < i ==> envs[j].win != win,
    ensures
        spec_env_contains(envs, win),
        spec_env_index(envs, win) == i,
    decreases i,
{
    if i > 0 {
        lemma_env_found_at(envs.drop_first(), win, i - 1);
    }
}

proof fn lemma_ref_found_at(refs: Seq<Keyborg>, id: u64, j: int)
    requires
        0 <= j < refs.len(),
        refs[j].id == id,
        forall|l: int| 0 <= l < j ==> refs[l].id != id,
    ensures
        refs_has_id(refs, id),
        refs_id_index(refs, id) == j,
    decreases j,
{
    if j > 0 {
        lemma_ref_found_at(refs.drop_first(), id, j - 1);
    }
}

proof fn lemma_handle_env_found_at(envs: Seq<EnvEntry>, id: u64, i: int)
    requires
        0 <= i < envs.len(),
        refs_has_id(envs[i].map.refs@, id),
        forall|j: int| 0 <= j < i ==> !refs_has_id(envs[j].map.refs@, id),
    ensures
        spec_handle_exists(envs, id),
        spec_handle_env_index(envs, id) == i,
    decreases i,
{
    if i > 0 {
        lemma_handle_env_found_at(envs.drop_first(), id, i - 1);
    }
}

/// The first index holding an instance with identifier `id`, if any.
fn find_ref_index(refs: &Vec<Keyborg>, id: u64) -> (r: Option<usize>)
    ensures
        match r {
            Some(j) => {
                &&& j < refs@.len()
                &&& refs@[j as int].id == id
                &&& j as int == refs_id_index(refs@, id)
                &&& refs_has_id(refs@, id)
            },
            None => !refs_has_id(refs@, id),
        },
{
    let mut j: usize = 0;
    while j < refs.len()
        invariant
            j <= refs.len(),
            forall|l: int| 0 <= l < j ==> refs@[l].id != id,
        decreases refs.len() - j,
    {
        if refs[j].id == id {
            proof {
                lemma_ref_found_at(refs@, id, j as int);
            }
            return Some(j);
        }
        j = j + 1;
    }
    None
}

/// What building an instance did beyond handing out the identifier.
pub struct CreateResult {
    /// The new instance's identifier.
    pub handle: u64,
    /// The focus-event setup that ran, when this acquisition built the
    /// environment's shared engine; absent when an existing engine was
    /// reused.
    pub setup: Option<crate::focus_event::SetupResult>,
}

/// The teardown work owed when the last instance of an environment is
/// disposed.
pub struct TeardownResult {
    /// Whether an outstanding pointer-activity window must be cancelled.
    pub cancel_mouse_or_touch_timer: bool,
    /// Whether an outstanding dismissal window must be cancelled.
    pub cancel_dismiss_timer: bool,
    /// The focus-event teardown that ran.
    pub focus: crate::focus_event::DisposeFocusResult,
}

/// What disposing an instance did.
pub struct DisposeResult {
    /// False when the identifier was not registered; such a dispose is a
    /// no-op that only merits a debug-time diagnostic.
    pub was_known: bool,
    /// The teardown work, when this was the environment's last live
    /// instance.
    pub teardown: Option<TeardownResult>,
}

/// The process-lifetime registry: identifier source, the focus-event
/// normalization state, and one shared engine per environment,
/// reference-counted by live instances.
pub struct KeyborgRuntime {
    /// The last identifier handed out to an instance or an engine.
    pub last_id: u64,
    pub focus: crate::focus_event::FocusEventSystem,
    pub envs: Vec<EnvEntry>,
}

impl KeyborgRuntime {
    /// Registry well-formedness: at most one entry per environment, and
    /// every identifier in use was handed out.
    pub open spec fn wf(&self) -> bool {
        &&& (forall|i: int, j: int|
            0 <= i < j < self.envs@.len() ==> self.envs@[i].win != self.envs@[j].win)
        &&& (forall|i: int|
            0 <= i < self.envs@.len() ==> self.envs@[i].map.core.id <= self.last_id)
        &&& (forall|i: int, j: int|
            0 <= i < self.envs@.len() && 0 <= j < self.envs@[i].map.refs@.len()
                ==> self.envs@[i].map.refs@[j].id <= self.last_id)
    }

    pub fn new() -> (r: Self)
        ensures
            r.wf(),
            r.last_id == 0,
            r.envs@ == Seq::<EnvEntry>::empty(),
            !r.focus.can_override_native_focus,
            r.focus.keyborg_data_list.0@ == Seq::<crate::focus_event::KeyborgDataEntry>::empty(),
    {
        KeyborgRuntime {
            last_id: 0,
            focus: crate::focus_event::FocusEventSystem::new(),
            envs: Vec::new(),
        }
    }

    /// The first registry index keyed by `win`, if any.
    fn find_env_index(&self, win: u64) -> (r: Option<usize>)
        ensures
            match r {
                Some(i) => {
                    &&& i < self.envs@.len()
                    &&& self.envs@[i as int].win == win
                    &&& i as int == spec_env_index(self.envs@, win)
                    &&& spec_env_contains(self.envs@, win)
                },
                None => !spec_env_contains(self.envs@, win),
            },
    {
        let mut i: usize = 0;
        while i < self.envs.len()
            invariant
                i <= self.envs.len(),
                forall|j: int| 0 <= j < i ==> self.envs@[j].win != win,
            decreases self.envs.len() - i,
        {
            if self.envs[i].win == win {
                proof {
                    lemma_env_found_at(self.envs@, win, i as int);
                }
                return Some(i);
            }
            i = i + 1;
        }
        None
    }

    /// Registers an instance under the environment at `i`.
    fn push_ref(&mut self, i: usize, keyborg: Keyborg)
        requires
            i < old(self).envs@.len(),
        ensures
            final(self).last_id == old(self).last_id,
            final(self).focus == old(self).focus,
            final(self).envs@.len() == old(self).envs@.len(),
            forall|j: int|
                0 <= j < old(self).envs@.len() && j != i ==> final(self).envs@[j] == old(self).envs@[j],
            final(self).envs@[i as int].win == old(self).envs@[i as int].win,
            final(self).envs@[i as int].map.core == old(self).envs@[i as int].map.core,
            final(self).envs@[i as int].map.refs@ == old(self).envs@[i as int].map.refs@.push(
                keyborg,
            ),
    {
        let entry = &mut self.envs[i];
        entry.map.refs.push(keyborg);
    }

    /// Drops the instance at `j` of the environment at `i`.
    fn remove_ref(&mut self, i: usize, j: usize)
        requires
            i < old(self).envs@.len(),
            j < old(self).envs@[i as int].map.refs@.len(),
        ensures
            final(self).last_id == old(self).last_id,
            final(self).focus == old(self).focus,
            final(self).envs@.len() == old(self).envs@.len(),
            forall|l: int|
                0 <= l < old(self).envs@.len() && l != i ==> final(self).envs@[l] == old(self).envs@[l],
            final(self).envs@[i as int].win == old(self).envs@[i as int].win,
            final(self).envs@[i as int].map.core == old(self).envs@[i as int].map.core,
            final(self).envs@[i as int].map.refs@ == old(self).envs@[i as int].map.refs@.remove(
                j as int,
            ),
    {
        let entry = &mut self.envs[i];
        entry.map.refs.remove(j);
    }

    /// Adds a callback to the instance at `(i, j)`.
    fn subscribe_ref(&mut self, i: usize, j: usize, callback: u64)
        requires
            i < old(self).envs@.len(),
            j < old(self).envs@[i as int].map.refs@.len(),
        ensures
            final(self).last_id == old(self).last_id,
            final(self).focus == old(self).focus,
            final(self).envs@.len() == old(self).envs@.len(),
            forall|l: int|
                0 <= l < old(self).envs@.len() && l != i ==> final(self).envs@[l] == old(self).envs@[l],
            final(self).envs@[i as int].win == old(self).envs@[i as int].win,
            final(self).envs@[i as int].map.core == old(self).envs@[i as int].map.core,
            final(self).envs@[i as int].map.refs@.len() == old(self).envs@[i as int].map.refs@.len(),
            forall|l: int|
                0 <= l < old(self).envs@[i as int].map.refs@.len() && l != j ==> final(self).envs@[i as int].map.refs@[l] == old(self).envs@[i as int].map.refs@[l],
            final(self).envs@[i as int].map.refs@[j as int].id == old(self).envs@[i as int].map.refs@[j as int].id,
            final(self).envs@[i as int].map.refs@[j as int].callbacks() == old(self).envs@[i as int].map.refs@[j as int].callbacks().push(callback),
    {
        let entry = &mut self.envs[i];
        let keyborg = &mut entry.map.refs[j];
        keyborg.subscribe(callback);
    }

    /// Removes a callback from the instance at `(i, j)`.
    fn unsubscribe_ref(&mut self, i: usize, j: usize, callback: u64)
        requires
            i < old(self).envs@.len(),
            j < old(self).envs@[i as int].map.refs@.len(),
        ensures
            final(self).last_id == old(self).last_id,
            final(self).focus == old(self).focus,
            final(self).envs@.len() == old(self).envs@.len(),
            forall|l: int|
                0 <= l < old(self).envs@.len() && l != i ==> final(self).envs@[l] == old(self).envs@[l],
            final(self).envs@[i as int].win == old(self).envs@[i as int].win,
            final(self).envs@[i as int].map.core == old(self).envs@[i as int].map.core,
            final(self).envs@[i as int].map.refs@.len() == old(self).envs@[i as int].map.refs@.len(),
            forall|l: int|
                0 <= l < old(self).envs@[i as int].map.refs@.len() && l != j ==> final(self).envs@[i as int].map.refs@[l] == old(self).envs@[i as int].map.refs@[l],
            final(self).envs@[i as int].map.refs@[j as int].id == old(self).envs@[i as int].map.refs@[j as int].id,
            final(self).envs@[i as int].map.refs@[j as int].callbacks() == old(self).envs@[i as int].map.refs@[j as int].callbacks().remove_value(callback),
    {
        let entry = &mut self.envs[i];
        let keyborg = &mut entry.map.refs[j];
        keyborg.unsubscribe(callback);
    }

    /// The first environment index and instance index under which an
    /// instance with identifier `id` is registered, if any.
    fn find_handle(&self, id: u64) -> (r: Option<(usize, usize)>)
        ensures
            match r {
                Some(ij) => {
                    &&& ij.0 < self.envs@.len()
                    &&& ij.0 as int == spec_handle_env_index(self.envs@, id)
                    &&& spec_handle_exists(self.envs@, id)
                    &&& ij.1 < self.envs@[ij.0 as int].map.refs@.len()
                    &&& ij.1 as int == refs_id_index(self.envs@[ij.0 as int].map.refs@, id)
                    &&& self.envs@[ij.0 as int].map.refs@[ij.1 as int].id == id
                },
                None => !spec_handle_exists(self.envs@, id),
            },
    {
        let mut i: usize = 0;
        while i < self.envs.len()
            invariant
                i <= self.envs.len(),
                forall|j: int| 0 <= j < i ==> !refs_has_id(self.envs@[j].map.refs@, id),
            decreases self.envs.len() - i,
        {
            match find_ref_index(&self.envs[i].map.refs, id) {
                Some(j) => {
                    proof {
                        lemma_handle_env_found_at(self.envs@, id, i as int);
                    }
                    return Some((i, j));
                },
                None => {},
            }
            i = i + 1;
        }
        None
    }
}

/// What a raw input event asks of the host beyond notifications: which
/// one-shot windows to (re)start.
pub struct EventOutcome {
    /// The subscriber notifications owed, in fan-out order.
    pub notifications: Vec<Notification>,
    /// Whether the pointer-activity window must be restarted (cancelling
    /// any outstanding one).
    pub restart_mouse_or_touch_timer: bool,
    /// Whether the dismissal window must be restarted (cancelling any
    /// outstanding one).
    pub schedule_dismiss_timer: bool,
}

/// That an event for environment `k` changed nothing but that
/// environment's engine: every other entry, the environment key and the
/// instance list are untouched.
pub open spec fn only_core_changed(envs0: Seq<EnvEntry>, envs1: Seq<EnvEntry>, k: int) -> bool {
    &&& 0 <= k < envs0.len()
    &&& envs1.len() == envs0.len()
    &&& (forall|l: int| 0 <= l < envs0.len() && l != k ==> envs1[l] == envs0[l])
    &&& envs1[k].win == envs0[k].win
    &&& envs1[k].map.refs@ == envs0[k].map.refs@
    &&& envs1[k].map.core.same_config(envs0[k].map.core)
}

impl Keyborg {
    /// Builds an instance observing `win`'s shared engine, constructing
    /// the engine (and running focus-event setup with `setup`) when this
    /// is the environment's first live instance, and reusing the existing
    /// engine otherwise — a second, differing configuration is ignored:
    /// configuration is fixed by the first acquisition.
    pub fn create(
        rt: &mut KeyborgRuntime,
        win: u64,
        setup: &crate::focus_event::FocusSetupInput,
        props: Option<KeyborgProps>,
    ) -> (r: CreateResult)
        requires
            old(rt).wf(),
            old(rt).last_id < u64::MAX - 1,
        ensures
            final(rt).wf(),
            r.handle == old(rt).last_id + 1,
            spec_env_contains(old(rt).envs@, win) ==> ({
                let k = spec_env_index(old(rt).envs@, win);
                let envs0 = old(rt).envs@;
                let envs1 = final(rt).envs@;
                &&& r.setup is None
                &&& final(rt).last_id == old(rt).last_id + 1
                &&& final(rt).focus == old(rt).focus
                &&& envs1.len() == envs0.len()
                &&& (forall|j: int| 0 <= j < envs0.len() && j != k ==> envs1[j] == envs0[j])
                &&& envs1[k].win == win
                &&& envs1[k].map.core == envs0[k].map.core
                &&& envs1[k].map.refs@.len() == envs0[k].map.refs@.len() + 1
                &&& envs1[k].map.refs@.take(envs0[k].map.refs@.len() as int)
                    == envs0[k].map.refs@
                &&& envs1[k].map.refs@.last().id == r.handle
                &&& envs1[k].map.refs@.last().callbacks() == Seq::<u64>::empty()
            }),
            !spec_env_contains(old(rt).envs@, win) ==> ({
                let envs0 = old(rt).envs@;
                let envs1 = final(rt).envs@;
                let core = envs1.last().map.core;
                &&& final(rt).last_id == old(rt).last_id + 2
                &&& envs1.len() == envs0.len() + 1
                &&& envs1.take(envs0.len() as int) == envs0
                &&& envs1.last().win == win
                &&& core.id == old(rt).last_id + 2
                &&& core.win == win
                &&& !core.is_mouse_or_touch_used_timer
                &&& core.dismiss_timer is None
                &&& !core.is_navigating_with_keyboard.value()
                &&& core.trigger_keys_view() == props_trigger_keys(props)
                &&& core.dismiss_keys_view() == props_dismiss_keys(props)
                &&& envs1.last().map.refs@.len() == 1
                &&& envs1.last().map.refs@[0].id == r.handle
                &&& envs1.last().map.refs@[0].callbacks() == Seq::<u64>::empty()
                &&& (r.setup matches Some(s) && ({
                    let sys0 = old(rt).focus;
                    let sys1 = final(rt).focus;
                    &&& s.performed == !sys0.is_set_up(win)
                    &&& sys1.can_override_native_focus == (sys0.can_override_native_focus
                        || setup.can_override_probe)
                    &&& (!s.performed ==> sys1.event_listener_map == sys0.event_listener_map
                        && sys1.keyborg_data_list == sys0.keyborg_data_list
                        && sys1.native_focus_overridden == sys0.native_focus_overridden)
                    &&& (s.performed ==> ({
                        let entries0 = sys0.keyborg_data_list.0@;
                        let entries1 = sys1.keyborg_data_list.0@;
                        &&& s.attached_shadow_roots@ == crate::focus_event::catch_up_targets(
                            setup.active_chain@,
                        )
                        &&& entries1.len() == entries0.len() + 1
                        &&& entries1.take(entries0.len() as int) == entries0
                        &&& entries1.last().win == win
                        &&& entries1.last().data.doc == setup.doc
                        &&& entries1.last().data.shadow_targets@
                            == crate::focus_event::catch_up_targets(setup.active_chain@)
                        &&& entries1.last().data.last_focused_programmatically is None
                        &&& sys1.event_listener_map.targets(
                            crate::focus_event::FocusEventName::FocusIn,
                        ) == sys0.event_listener_map.targets(
                            crate::focus_event::FocusEventName::FocusIn,
                        ).push(setup.doc) + s.attached_shadow_roots@
                        &&& sys1.event_listener_map.targets(
                            crate::focus_event::FocusEventName::FocusOut,
                        ) == sys0.event_listener_map.targets(
                            crate::focus_event::FocusEventName::FocusOut,
                        ).push(setup.doc) + s.attached_shadow_roots@
                        &&& sys1.native_focus_overridden@
                            == sys0.native_focus_overridden@.push(win)
                    }))
                }))
            }),
    {
        let id = rt.last_id + 1;
        rt.last_id = id;
        let keyborg = Keyborg::new(id);
        match rt.find_env_index(win) {
            Some(i) => {
                rt.push_ref(i, keyborg);
                CreateResult { handle: id, setup: None }
            },
            None => {
                let core_id = rt.last_id + 1;
                rt.last_id = core_id;
                let setup_result = crate::focus_event::setup_focus_event(
                    &mut rt.focus,
                    win,
                    setup,
                );
                let core = KeyborgCore::new(core_id, win, props);
                let mut map = KeyborgMap::new(core);
                map.refs.push(keyborg);
                rt.envs.push(EnvEntry { win, map });
                proof {
                    assert(rt.envs@.take(old(rt).envs@.len() as int) =~= old(rt).envs@);
                }
                CreateResult { handle: id, setup: Some(setup_result) }
            },
        }
    }

    /// Removes the instance `id` from the registry.  When it was the
    /// environment's last live instance, the shared engine is torn down:
    /// outstanding windows are cancelled, focus-event normalization is
    /// disposed, and the environment is forgotten — a later acquisition
    /// rebuilds from scratch.  Disposing an unknown identifier changes
    /// nothing (callers may report it in debug builds; it must never
    /// fail).
    pub fn dispose(rt: &mut KeyborgRuntime, id: u64) -> (r: DisposeResult)
        requires
            old(rt).wf(),
        ensures
            final(rt).wf(),
            final(rt).last_id == old(rt).last_id,
            r.was_known == spec_handle_exists(old(rt).envs@, id),
            !r.was_known ==> *final(rt) == *old(rt) && r.teardown is None,
            r.was_known ==> ({
                let k = spec_handle_env_index(old(rt).envs@, id);
                let envs0 = old(rt).envs@;
                let envs1 = final(rt).envs@;
                let j = refs_id_index(envs0[k].map.refs@, id);
                if envs0[k].map.refs@.len() > 1 {
                    &&& r.teardown is None
                    &&& final(rt).focus == old(rt).focus
                    &&& envs1.len() == envs0.len()
                    &&& (forall|l: int| 0 <= l < envs0.len() && l != k ==> envs1[l] == envs0[l])
                    &&& envs1[k].win == envs0[k].win
                    &&& envs1[k].map.core == envs0[k].map.core
                    &&& envs1[k].map.refs@ == envs0[k].map.refs@.remove(j)
                } else {
                    &&& envs1 == envs0.remove(k)
                    &&& (r.teardown matches Some(t) && ({
                        let win = envs0[k].win;
                        let sys0 = old(rt).focus;
                        let sys1 = final(rt).focus;
                        &&& t.cancel_mouse_or_touch_timer
                            == envs0[k].map.core.is_mouse_or_touch_used_timer
                        &&& t.cancel_dismiss_timer == (envs0[k].map.core.dismiss_timer is Some)
                        &&& sys1.can_override_native_focus == sys0.can_override_native_focus
                        &&& t.focus.restore_native_focus
                            == sys0.native_focus_overridden@.contains(win)
                        &&& sys1.native_focus_overridden@
                            == sys0.native_focus_overridden@.remove_value(win)
                        &&& t.focus.performed == sys0.is_set_up(win)
                        &&& sys1.keyborg_data_list.0@ == crate::focus_event::spec_remove_win(
                            sys0.keyborg_data_list.0@,
                            win,
                        )
                        &&& (!t.focus.performed ==> sys1.event_listener_map
                            == sys0.event_listener_map && t.focus.detached_shadow_roots@
                            == Seq::<u64>::empty())
                        &&& (t.focus.performed ==> (match crate::focus_event::spec_find(
                            sys0.keyborg_data_list.0@,
                            win,
                        ) {
                            Some(d) => {
                                &&& t.focus.doc == d.doc
                                &&& t.focus.detached_shadow_roots@ == d.shadow_targets@
                                &&& sys1.event_listener_map.targets(
                                    crate::focus_event::FocusEventName::FocusIn,
                                ) == crate::focus_event::remove_all_values(
                                    sys0.event_listener_map.targets(
                                        crate::focus_event::FocusEventName::FocusIn,
                                    ).remove_value(d.doc),
                                    d.shadow_targets@,
                                )
                                &&& sys1.event_listener_map.targets(
                                    crate::focus_event::FocusEventName::FocusOut,
                                ) == crate::focus_event::remove_all_values(
                                    sys0.event_listener_map.targets(
                                        crate::focus_event::FocusEventName::FocusOut,
                                    ).remove_value(d.doc),
                                    d.shadow_targets@,
                                )
                            },
                            None => false,
                        }))
                    }))
                }
            }),
    {
        match rt.find_handle(id) {
            None => DisposeResult { was_known: false, teardown: None },
            Some((i, j)) => {
                // Remove once, then check the resulting emptiness.
                rt.remove_ref(i, j);
                if rt.envs[i].map.refs.len() == 0 {
                    let win = rt.envs[i].win;
                    let cancel_mouse_or_touch_timer =
                        rt.envs[i].map.core.is_mouse_or_touch_used_timer;
                    let cancel_dismiss_timer = rt.envs[i].map.core.dismiss_timer.is_some();
                    let focus = crate::focus_event::dispose_focus_event(&mut rt.focus, win);
                    rt.envs.remove(i);
                    DisposeResult {
                        was_known: true,
                        teardown: Some(
                            TeardownResult {
                                cancel_mouse_or_touch_timer,
                                cancel_dismiss_timer,
                                focus,
                            },
                        ),
                    }
                } else {
                    DisposeResult { was_known: true, teardown: None }
                }
            },
        }
    }

    /// Whether the user is navigating with the keyboard, as the shared
    /// engine of the environment holding instance `id` sees it; an
    /// instance no longer registered reports false.
    pub fn is_navigating_with_keyboard(rt: &KeyborgRuntime, id: u64) -> (r: bool)
        ensures
            r == (if spec_handle_exists(rt.envs@, id) {
                rt.envs@[spec_handle_env_index(rt.envs@, id)].map.core.is_navigating_with_keyboard.value()
            } else {
                false
            }),
    {
        match rt.find_handle(id) {
            Some((i, _)) => rt.envs[i].map.core.is_navigating_with_keyboard.get(),
            None => false,
        }
    }
}

impl KeyborgRuntime {
    /// Registers `callback` with instance `id`; it will be called on
    /// every navigation-state change of that instance's environment.  An
    /// unknown identifier registers nothing.
    pub fn subscribe(&mut self, id: u64, callback: u64)
        ensures
            old(self).wf() ==> final(self).wf(),
            final(self).last_id == old(self).last_id,
            final(self).focus == old(self).focus,
            !spec_handle_exists(old(self).envs@, id) ==> *final(self) == *old(self),
            spec_handle_exists(old(self).envs@, id) ==> ({
                let k = spec_handle_env_index(old(self).envs@, id);
                let envs0 = old(self).envs@;
                let envs1 = final(self).envs@;
                let j = refs_id_index(envs0[k].map.refs@, id);
                &&& envs1.len() == envs0.len()
                &&& (forall|l: int| 0 <= l < envs0.len() && l != k ==> envs1[l] == envs0[l])
                &&& envs1[k].win == envs0[k].win
                &&& envs1[k].map.core == envs0[k].map.core
                &&& envs1[k].map.refs@.len() == envs0[k].map.refs@.len()
                &&& (forall|l: int|
                    0 <= l < envs0[k].map.refs@.len() && l != j ==> envs1[k].map.refs@[l]
                        == envs0[k].map.refs@[l])
                &&& envs1[k].map.refs@[j].id == id
                &&& envs1[k].map.refs@[j].callbacks() == envs0[k].map.refs@[j].callbacks().push(
                    callback,
                )
            }),
    {
        match self.find_handle(id) {
            Some((i, j)) => {
                self.subscribe_ref(i, j, callback);
            },
            None => {},
        }
    }

    /// A canonical focus-in reached `win`'s engine (the engine observes
    /// the dispatched canonical notification at the document, capture
    /// phase).  An environment without an engine ignores it.
    pub fn on_keyborg_focus_in(
        &mut self,
        win: u64,
        details: &crate::focus_event::KeyborgFocusInDetails,
    ) -> (out: Vec<Notification>)
        ensures
            old(self).wf() ==> final(self).wf(),
            final(self).last_id == old(self).last_id,
            final(self).focus == old(self).focus,
            !spec_env_contains(old(self).envs@, win) ==> *final(self) == *old(self)
                && out@ == Seq::<Notification>::empty(),
            spec_env_contains(old(self).envs@, win) ==> ({
                let k = spec_env_index(old(self).envs@, win);
                let core0 = old(self).envs@[k].map.core;
                let core1 = final(self).envs@[k].map.core;
                let triggers = core0.spec_focus_in_triggers(*details);
                &&& only_core_changed(old(self).envs@, final(self).envs@, k)
                &&& core1.is_navigating_with_keyboard.value() == (triggers
                    || core0.is_navigating_with_keyboard.value())
                &&& core1.is_mouse_or_touch_used_timer == core0.is_mouse_or_touch_used_timer
                &&& core1.dismiss_timer == core0.dismiss_timer
                &&& out@ == (if triggers {
                    fan_out(old(self).envs@[k].map.refs@, true)
                } else {
                    Seq::<Notification>::empty()
                })
            }),
    {
        match self.find_env_index(win) {
            None => Vec::new(),
            Some(i) => {
                let entry = &mut self.envs[i];
                let changed = entry.map.core.on_focus_in(details);
                if changed {
                    entry.map.core.is_navigating_with_keyboard.update(&entry.map.refs)
                } else {
                    Vec::new()
                }
            },
        }
    }

    /// A raw pointer-down reached `win`.  A genuine one (buttons pressed,
    /// some coordinate nonzero) restarts the pointer-activity window and
    /// leaves keyboard mode; one that looks synthesized by assistive
    /// technology is ignored.
    pub fn on_mouse_down(&mut self, win: u64, e: &MouseDownInput) -> (r: EventOutcome)
        ensures
            old(self).wf() ==> final(self).wf(),
            final(self).last_id == old(self).last_id,
            final(self).focus == old(self).focus,
            !r.schedule_dismiss_timer,
            !spec_env_contains(old(self).envs@, win) ==> *final(self) == *old(self)
                && r.notifications@ == Seq::<Notification>::empty()
                && !r.restart_mouse_or_touch_timer,
            spec_env_contains(old(self).envs@, win) ==> ({
                let k = spec_env_index(old(self).envs@, win);
                let core0 = old(self).envs@[k].map.core;
                let core1 = final(self).envs@[k].map.core;
                let genuine = !spec_pointer_down_ignored(*e);
                &&& only_core_changed(old(self).envs@, final(self).envs@, k)
                &&& r.restart_mouse_or_touch_timer == genuine
                &&& (genuine ==> core1.is_mouse_or_touch_used_timer
                    && !core1.is_navigating_with_keyboard.value())
                &&& (!genuine ==> core1 == core0)
                &&& core1.dismiss_timer == core0.dismiss_timer
                &&& r.notifications@ == (if genuine
                    && core0.is_navigating_with_keyboard.value() {
                    fan_out(old(self).envs@[k].map.refs@, false)
                } else {
                    Seq::<Notification>::empty()
                })
            }),
    {
        match self.find_env_index(win) {
            None => EventOutcome {
                notifications: Vec::new(),
                restart_mouse_or_touch_timer: false,
                schedule_dismiss_timer: false,
            },
            Some(i) => {
                let entry = &mut self.envs[i];
                let outcome = entry.map.core.on_mouse_down(e);
                let notifications = if outcome.changed {
                    entry.map.core.is_navigating_with_keyboard.update(&entry.map.refs)
                } else {
                    Vec::new()
                };
                EventOutcome {
                    notifications,
                    restart_mouse_or_touch_timer: outcome.genuine,
                    schedule_dismiss_timer: false,
                }
            },
        }
    }

    /// A raw touch-start, touch-end or touch-cancel reached `win`: shared
    /// pointer-or-touch handling, unconditionally.
    pub fn on_touch(&mut self, win: u64) -> (r: EventOutcome)
        ensures
            old(self).wf() ==> final(self).wf(),
            final(self).last_id == old(self).last_id,
            final(self).focus == old(self).focus,
            !r.schedule_dismiss_timer,
            !spec_env_contains(old(self).envs@, win) ==> *final(self) == *old(self)
                && r.notifications@ == Seq::<Notification>::empty()
                && !r.restart_mouse_or_touch_timer,
            spec_env_contains(old(self).envs@, win) ==> ({
                let k = spec_env_index(old(self).envs@, win);
                let core0 = old(self).envs@[k].map.core;
                let core1 = final(self).envs@[k].map.core;
                &&& only_core_changed(old(self).envs@, final(self).envs@, k)
                &&& r.restart_mouse_or_touch_timer
                &&& core1.is_mouse_or_touch_used_timer
                &&& !core1.is_navigating_with_keyboard.value()
                &&& core1.dismiss_timer == core0.dismiss_timer
                &&& r.notifications@ == (if core0.is_navigating_with_keyboard.value() {
                    fan_out(old(self).envs@[k].map.refs@, false)
                } else {
                    Seq::<Notification>::empty()
                })
            }),
    {
        match self.find_env_index(win) {
            None => EventOutcome {
                notifications: Vec::new(),
                restart_mouse_or_touch_timer: false,
                schedule_dismiss_timer: false,
            },
            Some(i) => {
                let entry = &mut self.envs[i];
                let changed = entry.map.core.on_mouse_or_touch();
                let notifications = if changed {
                    entry.map.core.is_navigating_with_keyboard.update(&entry.map.refs)
                } else {
                    Vec::new()
                };
                EventOutcome {
                    notifications,
                    restart_mouse_or_touch_timer: true,
                    schedule_dismiss_timer: false,
                }
            },
        }
    }

    /// A raw key-down reached `win`: in keyboard mode a dismiss key
    /// schedules the dismissal window; out of it a triggering key turns
    /// keyboard mode on.
    pub fn on_key_down(
        &mut self,
        win: u64,
        key: &KeyDownInput,
        active_element: &Option<ActiveElement>,
    ) -> (r: EventOutcome)
        ensures
            old(self).wf() ==> final(self).wf(),
            final(self).last_id == old(self).last_id,
            final(self).focus == old(self).focus,
            !r.restart_mouse_or_touch_timer,
            !spec_env_contains(old(self).envs@, win) ==> *final(self) == *old(self)
                && r.notifications@ == Seq::<Notification>::empty()
                && !r.schedule_dismiss_timer,
            spec_env_contains(old(self).envs@, win) ==> ({
                let k = spec_env_index(old(self).envs@, win);
                let core0 = old(self).envs@[k].map.core;
                let core1 = final(self).envs@[k].map.core;
                &&& only_core_changed(old(self).envs@, final(self).envs@, k)
                &&& core1.is_mouse_or_touch_used_timer == core0.is_mouse_or_touch_used_timer
                &&& (core0.is_navigating_with_keyboard.value() ==> ({
                    &&& r.schedule_dismiss_timer == dismiss_contains(
                        core0.dismiss_keys_view(),
                        key.key_code,
                    )
                    &&& core1.is_navigating_with_keyboard == core0.is_navigating_with_keyboard
                    &&& (r.schedule_dismiss_timer ==> core1.dismiss_timer == Some(
                        (DismissTimer {
                            snapshot: match *active_element {
                                Some(a) => Some(a.id),
                                None => None,
                            },
                        }),
                    ))
                    &&& (!r.schedule_dismiss_timer ==> core1.dismiss_timer == core0.dismiss_timer)
                    &&& r.notifications@ == Seq::<Notification>::empty()
                }))
                &&& (!core0.is_navigating_with_keyboard.value() ==> ({
                    let triggers = spec_should_trigger(
                        core0.trigger_keys_view(),
                        key.key@,
                        key.key_code,
                        *active_element,
                    );
                    &&& !r.schedule_dismiss_timer
                    &&& core1.dismiss_timer == core0.dismiss_timer
                    &&& core1.is_navigating_with_keyboard.value() == triggers
                    &&& r.notifications@ == (if triggers {
                        fan_out(old(self).envs@[k].map.refs@, true)
                    } else {
                        Seq::<Notification>::empty()
                    })
                }))
            }),
    {
        match self.find_env_index(win) {
            None => EventOutcome {
                notifications: Vec::new(),
                restart_mouse_or_touch_timer: false,
                schedule_dismiss_timer: false,
            },
            Some(i) => {
                let entry = &mut self.envs[i];
                let outcome = entry.map.core.on_key_down(key, active_element);
                let notifications = if outcome.changed {
                    entry.map.core.is_navigating_with_keyboard.update(&entry.map.refs)
                } else {
                    Vec::new()
                };
                EventOutcome {
                    notifications,
                    restart_mouse_or_touch_timer: false,
                    schedule_dismiss_timer: outcome.schedule_dismiss,
                }
            },
        }
    }

    /// `win`'s pointer-activity window elapsed: focus changes stop being
    /// credited to the pointer.
    pub fn on_mouse_or_touch_timeout(&mut self, win: u64)
        ensures
            old(self).wf() ==> final(self).wf(),
            final(self).last_id == old(self).last_id,
            final(self).focus == old(self).focus,
            !spec_env_contains(old(self).envs@, win) ==> *final(self) == *old(self),
            spec_env_contains(old(self).envs@, win) ==> ({
                let k = spec_env_index(old(self).envs@, win);
                let core0 = old(self).envs@[k].map.core;
                let core1 = final(self).envs@[k].map.core;
                &&& only_core_changed(old(self).envs@, final(self).envs@, k)
                &&& !core1.is_mouse_or_touch_used_timer
                &&& core1.dismiss_timer == core0.dismiss_timer
                &&& core1.is_navigating_with_keyboard == core0.is_navigating_with_keyboard
            }),
    {
        match self.find_env_index(win) {
            None => {},
            Some(i) => {
                let entry = &mut self.envs[i];
                entry.map.core.on_mouse_or_touch_timeout();
            },
        }
    }

    /// `win`'s dismissal window elapsed; `current_focus` is the focused
    /// element the host read back.  Keyboard mode is dismissed exactly
    /// when focus is unchanged from the snapshot.
    pub fn on_dismiss_timeout(&mut self, win: u64, current_focus: Option<u64>) -> (out: Vec<
        Notification,
    >)
        ensures
            old(self).wf() ==> final(self).wf(),
            final(self).last_id == old(self).last_id,
            final(self).focus == old(self).focus,
            !spec_env_contains(old(self).envs@, win) ==> *final(self) == *old(self)
                && out@ == Seq::<Notification>::empty(),
            spec_env_contains(old(self).envs@, win) ==> ({
                let k = spec_env_index(old(self).envs@, win);
                let core0 = old(self).envs@[k].map.core;
                let core1 = final(self).envs@[k].map.core;
                let fires = spec_dismiss_fires(core0.dismiss_timer, current_focus);
                &&& only_core_changed(old(self).envs@, final(self).envs@, k)
                &&& core1.dismiss_timer is None
                &&& core1.is_mouse_or_touch_used_timer == core0.is_mouse_or_touch_used_timer
                &&& core1.is_navigating_with_keyboard.value()
                    == (core0.is_navigating_with_keyboard.value() && !fires)
                &&& out@ == (if core0.is_navigating_with_keyboard.value() && fires {
                    fan_out(old(self).envs@[k].map.refs@, false)
                } else {
                    Seq::<Notification>::empty()
                })
            }),
    {
        match self.find_env_index(win) {
            None => Vec::new(),
            Some(i) => {
                let entry = &mut self.envs[i];
                let changed = entry.map.core.on_dismiss_timeout(current_focus);
                if changed {
                    entry.map.core.is_navigating_with_keyboard.update(&entry.map.refs)
                } else {
                    Vec::new()
                }
            },
        }
    }

    /// Removes a callback registered with instance `id`; removing one
    /// that is not registered (or naming an unknown identifier) is a
    /// no-op.
    pub fn unsubscribe(&mut self, id: u64, callback: u64)
        ensures
            old(self).wf() ==> final(self).wf(),
            final(self).last_id == old(self).last_id,
            final(self).focus == old(self).focus,
            !spec_handle_exists(old(self).envs@, id) ==> *final(self) == *old(self),
            spec_handle_exists(old(self).envs@, id) ==> ({
                let k = spec_handle_env_index(old(self).envs@, id);
                let envs0 = old(self).envs@;
                let envs1 = final(self).envs@;
                let j = refs_id_index(envs0[k].map.refs@, id);
                &&& envs1.len() == envs0.len()
                &&& (forall|l: int| 0 <= l < envs0.len() && l != k ==> envs1[l] == envs0[l])
                &&& envs1[k].win == envs0[k].win
                &&& envs1[k].map.core == envs0[k].map.core
                &&& envs1[k].map.refs@.len() == envs0[k].map.refs@.len()
                &&& (forall|l: int|
                    0 <= l < envs0[k].map.refs@.len() && l != j ==> envs1[k].map.refs@[l]
                        == envs0[k].map.refs@[l])
                &&& envs1[k].map.refs@[j].id == id
                &&& envs1[k].map.refs@[j].callbacks()
                    == envs0[k].map.refs@[j].callbacks().remove_value(callback)
            }),
    {
        match self.find_handle(id) {
            Some((i, j)) => {
                self.unsubscribe_ref(i, j, callback);
            },
            None => {},
        }
    }
}

} // verus!
