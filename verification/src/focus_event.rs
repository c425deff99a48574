//! Focus-event normalization: the boundary registry and the canonical
//! focus-in / focus-out synthesis.
//!
//! Host nodes (documents, elements, shadow roots) are identified by the
//! numeric identities the host binding assigns them; the library keeps all
//! bookkeeping on those plain identities and hands back the listener
//! attach / detach and dispatch work as data.

use vstd::prelude::*;

verus! {

/// The payload of a canonical focus-in notification.
#[derive(Clone, Copy)]
pub struct KeyborgFocusInDetails {
    /// The element focus came from, when the native event reported one.
    pub related_target: Option<u64>,
    /// Whether the payload carries the original low-level focus event.
    pub original_event: bool,
    /// Whether this focus was the result of a direct focus call: present
    /// only when programmatic-focus detection is available or a pending
    /// programmatic-focus record exists; absent means indeterminate.
    pub is_focused_programmatically: Option<bool>,
}

/// Drops the first occurrence of `value` from `list`; a list without it
/// is left unchanged.
pub(crate) fn remove_first_value(list: &mut Vec<u64>, value: u64)
    ensures
        final(list)@ == old(list)@.remove_value(value),
{
    proof {
        list@.index_of_first_ensures(value);
    }
    let mut i: usize = 0;
    while i < list.len()
        invariant
            i <= list.len(),
            *list == *old(list),
            forall|j: int| 0 <= j < i ==> list@[j] != value,
        decreases list.len() - i,
    {
        if list[i] == value {
            proof {
                let s = old(list)@;
                assert(s[i as int] == value);
                assert(s.contains(value));
                s.index_of_first_ensures(value);
                match s.index_of_first(value) {
                    Some(index) => {
                        if index < i as int {
                            assert(s[index] == value);
                            assert(false);
                        }
                        if index > i as int {
                            assert(s[i as int] != value);
                            assert(false);
                        }
                        assert(s.remove_value(value) == s.remove(i as int));
                    },
                    None => {
                        assert(false);
                    },
                }
            }
            list.remove(i);
            return ;
        }
        i = i + 1;
    }
}

/// The two native focus event names whose capture listeners the
/// normalizer owns.
#[derive(Clone, Copy, PartialEq, Eq, Structural)]
pub enum FocusEventName {
    FocusIn,
    FocusOut,
}

/// Which node identities currently carry a capture listener for each
/// native focus event name, in attachment order.
pub struct EventListenerMap {
    focusin: Vec<u64>,
    focusout: Vec<u64>,
}

impl EventListenerMap {
    /// The targets listed under one event name, in attachment order.
    pub closed spec fn targets(&self, event_name: FocusEventName) -> Seq<u64> {
        match event_name {
            FocusEventName::FocusIn => self.focusin@,
            FocusEventName::FocusOut => self.focusout@,
        }
    }

    pub fn new() -> (r: Self)
        ensures
            r.targets(FocusEventName::FocusIn) == Seq::<u64>::empty(),
            r.targets(FocusEventName::FocusOut) == Seq::<u64>::empty(),
    {
        EventListenerMap { focusin: Vec::new(), focusout: Vec::new() }
    }

    /// Records that `target` now carries a capture listener for
    /// `event_name`.
    pub fn insert(&mut self, target: u64, event_name: FocusEventName)
        ensures
            final(self).targets(event_name) == old(self).targets(event_name).push(target),
            forall|other: FocusEventName|
                other != event_name ==> final(self).targets(other) == old(self).targets(other),
    {
        match event_name {
            FocusEventName::FocusIn => self.focusin.push(target),
            FocusEventName::FocusOut => self.focusout.push(target),
        }
    }

    /// The targets listed under one event name, in attachment order, as
    /// a list.
    pub fn listed_targets(&self, event_name: FocusEventName) -> (r: Vec<u64>)
        ensures
            r@ == self.targets(event_name),
    {
        match event_name {
            FocusEventName::FocusIn => clone_ids(&self.focusin),
            FocusEventName::FocusOut => clone_ids(&self.focusout),
        }
    }

    /// Drops the first record of `target` under `event_name`; removing a
    /// target that is not recorded is a no-op.
    pub fn remove(&mut self, target: u64, event_name: FocusEventName)
        ensures
            final(self).targets(event_name) == old(self).targets(event_name).remove_value(target),
            forall|other: FocusEventName|
                other != event_name ==> final(self).targets(other) == old(self).targets(other),
    {
        match event_name {
            FocusEventName::FocusIn => remove_first_value(&mut self.focusin, target),
            FocusEventName::FocusOut => remove_first_value(&mut self.focusout, target),
        }
    }
}

/// Whether `list` contains `id`.
pub(crate) fn contains_id(list: &Vec<u64>, id: u64) -> (r: bool)
    ensures
        r == list@.contains(id),
{
    let mut i: usize = 0;
    while i < list.len()
        invariant
            i <= list.len(),
            forall|j: int| 0 <= j < i ==> list@[j] != id,
        decreases list.len() - i,
    {
        if list[i] == id {
            return true;
        }
        i = i + 1;
    }
    false
}

/// A copy of a list of node identities.
fn clone_ids(list: &Vec<u64>) -> (r: Vec<u64>)
    ensures
        r@ == list@,
{
    let mut r: Vec<u64> = Vec::new();
    let mut i: usize = 0;
    while i < list.len()
        invariant
            i <= list.len(),
            r@ == list@.take(i as int),
        decreases list.len() - i,
    {
        r.push(list[i]);
        proof {
            assert(list@.take(i + 1 as int) =~= list@.take(i as int).push(list@[i as int]));
        }
        i = i + 1;
    }
    proof {
        assert(list@.take(list@.len() as int) =~= list@);
    }
    r
}

/// The focus-event bookkeeping of one environment.
pub struct KeyborgData {
    /// The document node carrying the document-level capture listeners.
    pub doc: u64,
    /// Boundary roots of encapsulated sub-trees that currently carry
    /// capture listeners, in attachment order; each appears at most once.
    pub shadow_targets: Vec<u64>,
    /// The element last focused through the intercepted focus operation,
    /// still waiting to be matched against a focus-in.
    pub last_focused_programmatically: Option<u64>,
}

/// One environment's entry in the focus-event state.
pub struct KeyborgDataEntry {
    pub win: u64,
    pub data: KeyborgData,
}

/// The focus-event state of every set-up environment, in setup order.
pub struct KeyborgDataList(pub Vec<KeyborgDataEntry>);

/// The data recorded for `win`: the first entry under that environment.
pub open spec fn spec_find(entries: Seq<KeyborgDataEntry>, win: u64) -> Option<KeyborgData>
    decreases entries.len(),
{
    if entries.len() == 0 {
        None
    } else if entries.first().win == win {
        Some(entries.first().data)
    } else {
        spec_find(entries.drop_first(), win)
    }
}

/// The index of the first entry under `win`; meaningful only when one
/// exists.
pub open spec fn spec_win_index(entries: Seq<KeyborgDataEntry>, win: u64) -> int
    decreases entries.len(),
{
    if entries.len() == 0 {
        0
    } else if entries.first().win == win {
        0
    } else {
        1 + spec_win_index(entries.drop_first(), win)
    }
}

/// The entries with the first entry under `win` dropped; without one the
/// entries are unchanged.
pub open spec fn spec_remove_win(entries: Seq<KeyborgDataEntry>, win: u64) -> Seq<KeyborgDataEntry>
    decreases entries.len(),
{
    if entries.len() == 0 {
        entries
    } else if entries.first().win == win {
        entries.drop_first()
    } else {
        seq![entries.first()] + spec_remove_win(entries.drop_first(), win)
    }
}

proof fn lemma_win_found_at(entries: Seq<KeyborgDataEntry>, win: u64, i: int)
    requires
        0 <= i < entries.len(),
        entries[i].win == win,
        forall|j: int| 0 <= j < i ==> entries[j].win != win,
    ensures
        spec_find(entries, win) == Some(entries[i].data),
        spec_win_index(entries, win) == i,
        spec_remove_win(entries, win) == entries.remove(i),
    decreases i,
{
    if i == 0 {
        assert(entries.remove(0) =~= entries.drop_first());
    } else {
        let tail = entries.drop_first();
        lemma_win_found_at(tail, win, i - 1);
        assert(tail.remove(i - 1) =~= entries.remove(i).drop_first());
        assert(seq![entries.first()] + tail.remove(i - 1) =~= entries.remove(i));
    }
}

proof fn lemma_win_absent(entries: Seq<KeyborgDataEntry>, win: u64)
    requires
        forall|j: int| 0 <= j < entries.len() ==> entries[j].win != win,
    ensures
        spec_find(entries, win) is None,
        spec_remove_win(entries, win) == entries,
    decreases entries.len(),
{
    if entries.len() > 0 {
        lemma_win_absent(entries.drop_first(), win);
        assert(seq![entries.first()] + entries.drop_first() =~= entries);
    }
}

impl KeyborgDataList {
    pub fn new() -> (r: Self)
        ensures
            r.0@ == Seq::<KeyborgDataEntry>::empty(),
    {
        KeyborgDataList(Vec::new())
    }

    /// The index of the first entry under `win`, if any, with
    /// `spec_find` / `spec_win_index` pinned accordingly.
    fn find_index(&self, win: u64) -> (r: Option<usize>)
        ensures
            match r {
                Some(i) => {
                    &&& i < self.0@.len()
                    &&& self.0@[i as int].win == win
                    &&& i as int == spec_win_index(self.0@, win)
                    &&& spec_find(self.0@, win) == Some(self.0@[i as int].data)
                    &&& spec_remove_win(self.0@, win) == self.0@.remove(i as int)
                },
                None => spec_find(self.0@, win) is None && spec_remove_win(self.0@, win)
                    == self.0@,
            },
    {
        let mut i: usize = 0;
        while i < self.0.len()
            invariant
                i <= self.0.len(),
                forall|j: int| 0 <= j < i ==> self.0@[j].win != win,
            decreases self.0.len() - i,
        {
            if self.0[i].win == win {
                proof {
                    lemma_win_found_at(self.0@, win, i as int);
                }
                return Some(i);
            }
            i = i + 1;
        }
        proof {
            lemma_win_absent(self.0@, win);
        }
        None
    }

    /// Records the focus-event state of `win`.
    pub fn push(&mut self, win: u64, data: KeyborgData)
        ensures
            final(self).0@ == old(self).0@.push((KeyborgDataEntry { win, data })),
    {
        self.0.push(KeyborgDataEntry { win, data });
    }

    /// Drops the entry recorded for `win`; removing an environment that
    /// is not recorded is a no-op.
    pub fn remove(&mut self, win: u64)
        ensures
            final(self).0@ == spec_remove_win(old(self).0@, win),
    {
        match self.find_index(win) {
            Some(i) => {
                self.0.remove(i);
            },
            None => {},
        }
    }

    /// The focus-event state recorded for `win`, if any.
    pub fn find(&self, win: u64) -> (r: Option<&KeyborgData>)
        ensures
            match r {
                Some(d) => spec_find(self.0@, win) == Some(*d),
                None => spec_find(self.0@, win) is None,
            },
    {
        match self.find_index(win) {
            Some(i) => Some(&self.0[i].data),
            None => None,
        }
    }

    /// Replaces the boundary-root registry of the entry at `i`.
    fn set_shadow_targets(&mut self, i: usize, targets: Vec<u64>)
        requires
            i < old(self).0@.len(),
        ensures
            final(self).0@ == old(self).0@.update(
                i as int,
                (KeyborgDataEntry {
                    win: old(self).0@[i as int].win,
                    data: KeyborgData {
                        doc: old(self).0@[i as int].data.doc,
                        shadow_targets: targets,
                        last_focused_programmatically: old(self).0@[i as int].data.last_focused_programmatically,
                    },
                }),
            ),
    {
        let entry = &mut self.0[i];
        entry.data.shadow_targets = targets;
    }

    /// Replaces the programmatic-focus record of the entry at `i`.
    fn set_marker(&mut self, i: usize, marker: Option<u64>)
        requires
            i < old(self).0@.len(),
        ensures
            final(self).0@ == old(self).0@.update(
                i as int,
                (KeyborgDataEntry {
                    win: old(self).0@[i as int].win,
                    data: KeyborgData {
                        doc: old(self).0@[i as int].data.doc,
                        shadow_targets: old(self).0@[i as int].data.shadow_targets,
                        last_focused_programmatically: marker,
                    },
                }),
            ),
    {
        let entry = &mut self.0[i];
        entry.data.last_focused_programmatically = marker;
    }
}

/// One node of an event's propagation path, ordered from the deepest
/// originating node outward, as the host reports it at dispatch time.
#[derive(Clone, Copy)]
pub struct PathNode {
    pub id: u64,
    /// Whether the node is the root of an encapsulated sub-tree.
    pub is_shadow_root: bool,
}

/// What the host reports about the target of a native focus-in event.
#[derive(Clone, Copy)]
pub struct FocusTarget {
    pub id: u64,
    /// The root of the target's open encapsulated sub-tree, when it
    /// hosts one.
    pub shadow_root: Option<u64>,
}

/// A native focus-in event, reduced to what the normalizer reads.
pub struct NativeFocusIn {
    /// The event target; an event with no resolvable target is ignored.
    pub target: Option<FocusTarget>,
    /// The full propagation path at the moment of dispatch.
    pub composed_path: Vec<PathNode>,
    /// The element focus came from, when the event reports one.
    pub related_target: Option<u64>,
}

/// A canonical focus-in notification to dispatch on the leaf target;
/// it bubbles, is cancelable, and crosses encapsulated-tree boundaries.
#[derive(Clone, Copy)]
pub struct KeyborgFocusIn {
    pub target: u64,
    pub details: KeyborgFocusInDetails,
}

/// A canonical focus-out notification to dispatch on the target,
/// carrying the original low-level event.
#[derive(Clone, Copy)]
pub struct KeyborgFocusOut {
    pub target: u64,
    pub original_event: bool,
}

/// What a native focus-in pass decided: listeners to drop, a listener to
/// attach, and at most one canonical notification to dispatch.
pub struct FocusInResult {
    /// Boundary roots whose capture listeners must be removed (a root
    /// already reclaimed by the host needs no work).
    pub detached_shadow_roots: Vec<u64>,
    /// A boundary root that must be given capture focus-in / focus-out
    /// listeners.
    pub attached_shadow_root: Option<u64>,
    /// The canonical focus-in to dispatch, when the target was a genuine
    /// leaf focus target.
    pub dispatch: Option<KeyborgFocusIn>,
}

/// One level of the startup catch-up walk: an active element and the
/// open encapsulated sub-tree it hosts.
#[derive(Clone, Copy)]
pub struct ChainLevel {
    pub host: u64,
    pub root: u64,
}

/// What the host supplies when an environment is set up.
pub struct FocusSetupInput {
    /// The environment's document node.
    pub doc: u64,
    /// Whether the host found the native focus operation overridable.
    pub can_override_probe: bool,
    /// The chain of nested open encapsulated sub-trees around the
    /// currently focused element, outermost first.
    pub active_chain: Vec<ChainLevel>,
}

/// What a setup pass did.
pub struct SetupResult {
    /// False when the environment was already set up and nothing was
    /// done.
    pub performed: bool,
    /// Boundary roots that must be given capture listeners right away,
    /// because focus already sits inside them.
    pub attached_shadow_roots: Vec<u64>,
}

/// What a teardown pass did.
pub struct DisposeFocusResult {
    /// False when the environment was not set up.
    pub performed: bool,
    /// The document whose document-level listeners must be removed.
    pub doc: u64,
    /// Boundary roots whose capture listeners must be removed.
    pub detached_shadow_roots: Vec<u64>,
    /// Whether the original, non-intercepted focus operation must be
    /// restored.
    pub restore_native_focus: bool,
}

/// The boundary roots on a propagation path, in path order: walking the
/// path outward, every node that is the root of an encapsulated sub-tree
/// is collected (the walk continues from the sub-tree's host, the next
/// path node).
pub open spec fn path_shadow_roots(path: Seq<PathNode>) -> Seq<u64>
    decreases path.len(),
{
    if path.len() == 0 {
        Seq::empty()
    } else {
        let prefix = path_shadow_roots(path.drop_last());
        if path.last().is_shadow_root {
            prefix.push(path.last().id)
        } else {
            prefix
        }
    }
}

/// The registry entries that survive a focus-in pass: those on the
/// just-computed currently-active path, in registry order.
pub open spec fn spec_kept(targets: Seq<u64>, current: Seq<u64>) -> Seq<u64>
    decreases targets.len(),
{
    if targets.len() == 0 {
        Seq::empty()
    } else {
        let prefix = spec_kept(targets.drop_last(), current);
        if current.contains(targets.last()) {
            prefix.push(targets.last())
        } else {
            prefix
        }
    }
}

/// The registry entries a focus-in pass prunes: those no longer on the
/// currently-active path, in registry order.
pub open spec fn spec_pruned(targets: Seq<u64>, current: Seq<u64>) -> Seq<u64>
    decreases targets.len(),
{
    if targets.len() == 0 {
        Seq::empty()
    } else {
        let prefix = spec_pruned(targets.drop_last(), current);
        if current.contains(targets.last()) {
            prefix
        } else {
            prefix.push(targets.last())
        }
    }
}

/// A listener list after dropping the first record of every given value,
/// in order.
pub open spec fn remove_all_values(targets: Seq<u64>, values: Seq<u64>) -> Seq<u64>
    decreases values.len(),
{
    if values.len() == 0 {
        targets
    } else {
        remove_all_values(targets, values.drop_last()).remove_value(values.last())
    }
}

/// The boundary roots the startup catch-up walk attaches: the chain's
/// roots, outermost first, first occurrence only.
pub open spec fn catch_up_targets(chain: Seq<ChainLevel>) -> Seq<u64>
    decreases chain.len(),
{
    if chain.len() == 0 {
        Seq::empty()
    } else {
        let prefix = catch_up_targets(chain.drop_last());
        if prefix.contains(chain.last().root) {
            prefix
        } else {
            prefix.push(chain.last().root)
        }
    }
}

/// The programmatic-focus flag a canonical focus-in carries: present
/// only when detection is available or a programmatic-focus record is
/// pending, and true exactly when the target is the recorded element.
pub open spec fn spec_focus_in_flag(can_override: bool, marker: Option<u64>, target: u64) -> Option<
    bool,
> {
    if can_override || marker is Some {
        Some(marker == Some(target))
    } else {
        None
    }
}

/// No identity appears twice.
pub open spec fn seq_distinct(s: Seq<u64>) -> bool {
    forall|i: int, j: int| 0 <= i < j < s.len() ==> s[i] != s[j]
}

/// The startup catch-up walk never registers a boundary root twice: the
/// registry it builds satisfies the at-most-once invariant from the
/// start.
pub proof fn lemma_catch_up_targets_distinct(chain: Seq<ChainLevel>)
    ensures
        seq_distinct(catch_up_targets(chain)),
    decreases chain.len(),
{
    if chain.len() > 0 {
        lemma_catch_up_targets_distinct(chain.drop_last());
    }
}

/// A focus-in pass keeps the boundary registry free of duplicates: the
/// surviving entries of a duplicate-free registry are duplicate-free and
/// all come from the old registry, and the one root the pass may attach
/// is attached only when not already present — so a root appears in the
/// registry at most once, always.
pub proof fn lemma_focus_in_preserves_distinct_registry(targets: Seq<u64>, current: Seq<u64>)
    requires
        seq_distinct(targets),
    ensures
        seq_distinct(spec_kept(targets, current)),
        forall|x: u64| spec_kept(targets, current).contains(x) ==> targets.contains(x),
        forall|root: u64|
            !spec_kept(targets, current).contains(root) ==> seq_distinct(
                spec_kept(targets, current).push(root),
            ),
    decreases targets.len(),
{
    let kept = spec_kept(targets, current);
    if targets.len() > 0 {
        let prefix = targets.drop_last();
        assert(seq_distinct(prefix));
        lemma_focus_in_preserves_distinct_registry(prefix, current);
        let kp = spec_kept(prefix, current);
        assert forall|x: u64| kp.contains(x) implies targets.contains(x) by {
            assert(prefix.contains(x));
            let l = choose|l: int| 0 <= l < prefix.len() && prefix[l] == x;
            assert(targets[l] == x);
        }
        if current.contains(targets.last()) {
            assert(kept == kp.push(targets.last()));
            assert(!kp.contains(targets.last())) by {
                if kp.contains(targets.last()) {
                    assert(prefix.contains(targets.last()));
                    let l = choose|l: int| 0 <= l < prefix.len() && prefix[l] == targets.last();
                    assert(targets[l] == targets[targets.len() - 1]);
                }
            }
            lemma_push_distinct(kp, targets.last());
            assert forall|x: u64| kept.contains(x) implies targets.contains(x) by {
                let i = choose|i: int| 0 <= i < kept.len() && kept[i] == x;
                if i < kp.len() {
                    assert(kp[i] == x);
                    assert(kp.contains(x));
                } else {
                    assert(targets[targets.len() - 1] == x);
                }
            }
        } else {
            assert(kept == kp);
        }
    }
    assert forall|root: u64| !kept.contains(root) implies seq_distinct(kept.push(root)) by {
        lemma_push_distinct(kept, root);
    }
}

/// Appending an identity not yet present keeps a list duplicate-free.
proof fn lemma_push_distinct(s: Seq<u64>, x: u64)
    requires
        seq_distinct(s),
        !s.contains(x),
    ensures
        seq_distinct(s.push(x)),
{
    assert forall|i: int, j: int| 0 <= i < j < s.push(x).len() implies s.push(x)[i] != s.push(x)[j]
        by {
        if j < s.len() {
            assert(s.push(x)[i] == s[i]);
            assert(s.push(x)[j] == s[j]);
        } else {
            assert(s.push(x)[i] == s[i]);
            assert(s.push(x)[j] == x);
            if s[i] == x {
                assert(s.contains(x));
            }
        }
    }
}

/// A focus observed right after a programmatic focus call on the same
/// element is reported as programmatic; with detection available, a
/// focus with no pending programmatic record is reported as not
/// programmatic.
pub proof fn lemma_programmatic_focus_flag(can_override: bool, target: u64)
    ensures
        spec_focus_in_flag(can_override, Some(target), target) == Some(true),
        can_override ==> spec_focus_in_flag(can_override, None, target) == Some(false),
{
}

/// The focus-event normalization state of the whole process: which
/// targets carry listeners, which environments are set up, and whether
/// the native focus operation was found overridable.
pub struct FocusEventSystem {
    /// Whether the native focus operation can be overridden; probed at
    /// setup and kept once found true.
    pub can_override_native_focus: bool,
    pub event_listener_map: EventListenerMap,
    pub keyborg_data_list: KeyborgDataList,
    /// Environments whose native focus operation is currently
    /// intercepted.
    pub native_focus_overridden: Vec<u64>,
}

impl FocusEventSystem {
    /// Whether `win` is set up for focus-event normalization.
    pub open spec fn is_set_up(&self, win: u64) -> bool {
        spec_find(self.keyborg_data_list.0@, win) is Some
    }

    pub fn new() -> (r: Self)
        ensures
            !r.can_override_native_focus,
            r.event_listener_map.targets(FocusEventName::FocusIn) == Seq::<u64>::empty(),
            r.event_listener_map.targets(FocusEventName::FocusOut) == Seq::<u64>::empty(),
            r.keyborg_data_list.0@ == Seq::<KeyborgDataEntry>::empty(),
            r.native_focus_overridden@ == Seq::<u64>::empty(),
    {
        FocusEventSystem {
            can_override_native_focus: false,
            event_listener_map: EventListenerMap::new(),
            keyborg_data_list: KeyborgDataList::new(),
            native_focus_overridden: Vec::new(),
        }
    }
}

/// Sets up focus-event normalization for `win`: intercepts the native
/// focus operation, attaches the document-level capture listeners, and
/// walks any chain of nested open sub-trees around the already-focused
/// element so their roots get listeners exactly as if focus had arrived
/// there live.  Setting up an environment that already carries state is
/// a no-op (beyond caching the override probe).
pub fn setup_focus_event(sys: &mut FocusEventSystem, win: u64, setup: &FocusSetupInput) -> (r:
    SetupResult)
    ensures
        final(sys).can_override_native_focus == (old(sys).can_override_native_focus
            || setup.can_override_probe),
        r.performed == !old(sys).is_set_up(win),
        !r.performed ==> {
            &&& final(sys).event_listener_map == old(sys).event_listener_map
            &&& final(sys).keyborg_data_list == old(sys).keyborg_data_list
            &&& final(sys).native_focus_overridden == old(sys).native_focus_overridden
            &&& r.attached_shadow_roots@ == Seq::<u64>::empty()
        },
        r.performed ==> ({
            let entries0 = old(sys).keyborg_data_list.0@;
            let entries1 = final(sys).keyborg_data_list.0@;
            &&& r.attached_shadow_roots@ == catch_up_targets(setup.active_chain@)
            &&& entries1.len() == entries0.len() + 1
            &&& entries1.take(entries0.len() as int) == entries0
            &&& entries1.last().win == win
            &&& entries1.last().data.doc == setup.doc
            &&& entries1.last().data.shadow_targets@ == catch_up_targets(setup.active_chain@)
            &&& entries1.last().data.last_focused_programmatically is None
            &&& final(sys).event_listener_map.targets(FocusEventName::FocusIn) == old(sys).event_listener_map.targets(FocusEventName::FocusIn).push(setup.doc)
                + r.attached_shadow_roots@
            &&& final(sys).event_listener_map.targets(FocusEventName::FocusOut) == old(sys).event_listener_map.targets(FocusEventName::FocusOut).push(setup.doc)
                + r.attached_shadow_roots@
            &&& final(sys).native_focus_overridden@ == old(sys).native_focus_overridden@.push(win)
        }),
{
    if !sys.can_override_native_focus {
        sys.can_override_native_focus = setup.can_override_probe;
    }
    if sys.keyborg_data_list.find(win).is_some() {
        // Already set up.
        return SetupResult { performed: false, attached_shadow_roots: Vec::new() };
    }

    // Intercept the native focus operation so programmatic focus calls
    // are recorded before delegating to the original behavior.
    sys.native_focus_overridden.push(win);

    // Document-level capture listeners for the native focus events.
    sys.event_listener_map.insert(setup.doc, FocusEventName::FocusIn);
    sys.event_listener_map.insert(setup.doc, FocusEventName::FocusOut);

    let ghost focusin0 = sys.event_listener_map.targets(FocusEventName::FocusIn);
    let ghost focusout0 = sys.event_listener_map.targets(FocusEventName::FocusOut);

    // If focus already sits inside nested encapsulated sub-trees, attach
    // capture listeners to each level, outermost first.
    let mut attached: Vec<u64> = Vec::new();
    let chain = &setup.active_chain;
    let mut i: usize = 0;
    while i < chain.len()
        invariant
            i <= chain.len(),
            attached@ == catch_up_targets(chain@.take(i as int)),
            sys.event_listener_map.targets(FocusEventName::FocusIn) == focusin0 + attached@,
            sys.event_listener_map.targets(FocusEventName::FocusOut) == focusout0 + attached@,
            sys.keyborg_data_list == old(sys).keyborg_data_list,
            sys.native_focus_overridden@ == old(sys).native_focus_overridden@.push(win),
            sys.can_override_native_focus == (old(sys).can_override_native_focus
                || setup.can_override_probe),
        decreases chain.len() - i,
    {
        let root = chain[i].root;
        proof {
            assert(chain@.take(i + 1 as int).drop_last() =~= chain@.take(i as int));
            assert(chain@.take(i + 1 as int).last() == chain@[i as int]);
        }
        if !contains_id(&attached, root) {
            sys.event_listener_map.insert(root, FocusEventName::FocusIn);
            sys.event_listener_map.insert(root, FocusEventName::FocusOut);
            attached.push(root);
            proof {
                assert(sys.event_listener_map.targets(FocusEventName::FocusIn) =~= focusin0
                    + attached@);
                assert(sys.event_listener_map.targets(FocusEventName::FocusOut) =~= focusout0
                    + attached@);
            }
        }
        i = i + 1;
    }
    proof {
        assert(chain@.take(chain@.len() as int) =~= chain@);
    }

    let shadow_targets = clone_ids(&attached);
    sys.keyborg_data_list.push(
        win,
        KeyborgData { doc: setup.doc, shadow_targets, last_focused_programmatically: None },
    );
    proof {
        assert(sys.keyborg_data_list.0@.take(old(sys).keyborg_data_list.0@.len() as int)
            =~= old(sys).keyborg_data_list.0@);
    }
    SetupResult { performed: true, attached_shadow_roots: attached }
}

/// Handles a native focus-in event for `win` (the core algorithm of the
/// normalizer):
///
/// 1. the propagation path is walked outward and every boundary root on
///    it is collected as currently active;
/// 2. every registered boundary root that is not currently active loses
///    its capture listeners and leaves the registry (focus moved away;
///    a root the host already reclaimed is simply dropped);
/// 3. a target hosting an open sub-tree whose root is already registered
///    is left alone (the event is re-observed at each listener depth);
///    one with an unregistered root gets capture listeners and a registry
///    entry, and no canonical event yet — the true focus target is still
///    deeper inside;
/// 4. any other target is a genuine leaf focus target: a canonical
///    focus-in is dispatched on it, carrying the related target and —
///    when programmatic-focus detection is available or a programmatic
///    focus is pending — whether this focus matches the pending record,
///    which is then cleared.
///
/// An event with no resolvable target is ignored.
pub fn on_focus_in_event(sys: &mut FocusEventSystem, win: u64, ev: &NativeFocusIn) -> (r:
    FocusInResult)
    requires
        old(sys).is_set_up(win),
    ensures
        final(sys).can_override_native_focus == old(sys).can_override_native_focus,
        final(sys).native_focus_overridden == old(sys).native_focus_overridden,
        ev.target is None ==> {
            &&& *final(sys) == *old(sys)
            &&& r.detached_shadow_roots@ == Seq::<u64>::empty()
            &&& r.attached_shadow_root is None
            &&& r.dispatch is None
        },
        ev.target matches Some(target) ==> (match spec_find(old(sys).keyborg_data_list.0@, win) {
            Some(d) => ({
                let current = path_shadow_roots(ev.composed_path@);
                let kept = spec_kept(d.shadow_targets@, current);
                let k = spec_win_index(old(sys).keyborg_data_list.0@, win);
                let entries0 = old(sys).keyborg_data_list.0@;
                let entries1 = final(sys).keyborg_data_list.0@;
                &&& r.detached_shadow_roots@ == spec_pruned(d.shadow_targets@, current)
                &&& entries1.len() == entries0.len()
                &&& (forall|j: int|
                    0 <= j < entries0.len() && j != k ==> entries1[j] == entries0[j])
                &&& entries1[k].win == win
                &&& entries1[k].data.doc == d.doc
                &&& (match target.shadow_root {
                    Some(root) => {
                        &&& r.dispatch is None
                        &&& entries1[k].data.last_focused_programmatically
                            == d.last_focused_programmatically
                        &&& (if kept.contains(root) {
                            r.attached_shadow_root is None
                                && entries1[k].data.shadow_targets@ == kept
                        } else {
                            r.attached_shadow_root == Some(root)
                                && entries1[k].data.shadow_targets@ == kept.push(root)
                        })
                    },
                    None => {
                        &&& r.attached_shadow_root is None
                        &&& entries1[k].data.shadow_targets@ == kept
                        &&& entries1[k].data.last_focused_programmatically is None
                        &&& r.dispatch == Some(
                            (KeyborgFocusIn {
                                target: target.id,
                                details: KeyborgFocusInDetails {
                                    related_target: ev.related_target,
                                    original_event: false,
                                    is_focused_programmatically: spec_focus_in_flag(
                                        old(sys).can_override_native_focus,
                                        d.last_focused_programmatically,
                                        target.id,
                                    ),
                                },
                            }),
                        )
                    },
                })
                &&& ({
                    let base_in = remove_all_values(
                        old(sys).event_listener_map.targets(FocusEventName::FocusIn),
                        r.detached_shadow_roots@,
                    );
                    let base_out = remove_all_values(
                        old(sys).event_listener_map.targets(FocusEventName::FocusOut),
                        r.detached_shadow_roots@,
                    );
                    match r.attached_shadow_root {
                        Some(root) => final(sys).event_listener_map.targets(
                            FocusEventName::FocusIn,
                        ) == base_in.push(root) && final(sys).event_listener_map.targets(
                            FocusEventName::FocusOut,
                        ) == base_out.push(root),
                        None => final(sys).event_listener_map.targets(FocusEventName::FocusIn)
                            == base_in && final(sys).event_listener_map.targets(
                            FocusEventName::FocusOut,
                        ) == base_out,
                    }
                })
            }),
            None => false,
        }),
{
    let target = match &ev.target {
        None => {
            return FocusInResult {
                detached_shadow_roots: Vec::new(),
                attached_shadow_root: None,
                dispatch: None,
            };
        },
        Some(t) => *t,
    };
    let i = match sys.keyborg_data_list.find_index(win) {
        Some(i) => i,
        None => {
            proof {
                assert(false);
            }
            0
        },
    };

    // Step 1: collect the boundary roots on the propagation path.
    let path = &ev.composed_path;
    let mut current: Vec<u64> = Vec::new();
    let mut j: usize = 0;
    while j < path.len()
        invariant
            j <= path.len(),
            current@ == path_shadow_roots(path@.take(j as int)),
        decreases path.len() - j,
    {
        proof {
            assert(path@.take(j + 1 as int).drop_last() =~= path@.take(j as int));
            assert(path@.take(j + 1 as int).last() == path@[j as int]);
        }
        if path[j].is_shadow_root {
            current.push(path[j].id);
        }
        j = j + 1;
    }
    proof {
        assert(path@.take(path@.len() as int) =~= path@);
    }

    // Step 2: prune registry entries that are no longer active.
    let old_targets = clone_ids(&sys.keyborg_data_list.0[i].data.shadow_targets);
    let ghost map_in0 = sys.event_listener_map.targets(FocusEventName::FocusIn);
    let ghost map_out0 = sys.event_listener_map.targets(FocusEventName::FocusOut);
    let mut kept: Vec<u64> = Vec::new();
    let mut detached: Vec<u64> = Vec::new();
    let mut j: usize = 0;
    while j < old_targets.len()
        invariant
            j <= old_targets.len(),
            kept@ == spec_kept(old_targets@.take(j as int), current@),
            detached@ == spec_pruned(old_targets@.take(j as int), current@),
            sys.event_listener_map.targets(FocusEventName::FocusIn) == remove_all_values(
                map_in0,
                detached@,
            ),
            sys.event_listener_map.targets(FocusEventName::FocusOut) == remove_all_values(
                map_out0,
                detached@,
            ),
            sys.keyborg_data_list == old(sys).keyborg_data_list,
            sys.native_focus_overridden == old(sys).native_focus_overridden,
            sys.can_override_native_focus == old(sys).can_override_native_focus,
        decreases old_targets.len() - j,
    {
        let root = old_targets[j];
        proof {
            assert(old_targets@.take(j + 1 as int).drop_last() =~= old_targets@.take(j as int));
            assert(old_targets@.take(j + 1 as int).last() == old_targets@[j as int]);
        }
        if contains_id(&current, root) {
            kept.push(root);
        } else {
            let ghost detached0 = detached@;
            sys.event_listener_map.remove(root, FocusEventName::FocusIn);
            sys.event_listener_map.remove(root, FocusEventName::FocusOut);
            detached.push(root);
            proof {
                assert(detached@.drop_last() =~= detached0);
            }
        }
        j = j + 1;
    }
    proof {
        assert(old_targets@.take(old_targets@.len() as int) =~= old_targets@);
    }

    // Steps 3 and 4: the shared focus-in handling on the event's target.
    let mut attached: Option<u64> = None;
    let mut dispatch: Option<KeyborgFocusIn> = None;
    match target.shadow_root {
        Some(root) => {
            if !contains_id(&kept, root) {
                // The true focus target is still deeper inside this
                // sub-tree; follow it with capture listeners and wait
                // for the focus-in to re-fire from inside.
                sys.event_listener_map.insert(root, FocusEventName::FocusIn);
                sys.event_listener_map.insert(root, FocusEventName::FocusOut);
                kept.push(root);
                attached = Some(root);
            }
            sys.keyborg_data_list.set_shadow_targets(i, kept);
        },
        None => {
            sys.keyborg_data_list.set_shadow_targets(i, kept);
            let marker = sys.keyborg_data_list.0[i].data.last_focused_programmatically;
            let flag: Option<bool>;
            if sys.can_override_native_focus || marker.is_some() {
                let is_focused_programmatically = match marker {
                    Some(m) => m == target.id,
                    None => false,
                };
                sys.keyborg_data_list.set_marker(i, None);
                flag = Some(is_focused_programmatically);
            } else {
                flag = None;
            }
            dispatch = Some(
                KeyborgFocusIn {
                    target: target.id,
                    details: KeyborgFocusInDetails {
                        related_target: ev.related_target,
                        original_event: false,
                        is_focused_programmatically: flag,
                    },
                },
            );
        },
    }
    FocusInResult {
        detached_shadow_roots: detached,
        attached_shadow_root: attached,
        dispatch,
    }
}

/// Handles a native focus-out event: the canonical focus-out is
/// synthesized unconditionally on the same target, carrying the original
/// event, with no boundary bookkeeping (the focus-in pass owns
/// attach / detach).  An event with no resolvable target is ignored.
pub fn on_focus_out_event(target: &Option<u64>) -> (r: Option<KeyborgFocusOut>)
    ensures
        match *target {
            Some(t) => r == Some((KeyborgFocusOut { target: t, original_event: true })),
            None => r is None,
        },
{
    match target {
        Some(t) => Some(KeyborgFocusOut { target: *t, original_event: true }),
        None => None,
    }
}

/// Records that `element` was just focused through the intercepted focus
/// operation of `win`, to be matched against the next canonical
/// focus-in.  An environment without focus-event state records nothing.
pub fn record_programmatic_focus(sys: &mut FocusEventSystem, win: u64, element: u64)
    ensures
        final(sys).can_override_native_focus == old(sys).can_override_native_focus,
        final(sys).event_listener_map == old(sys).event_listener_map,
        final(sys).native_focus_overridden == old(sys).native_focus_overridden,
        !old(sys).is_set_up(win) ==> final(sys).keyborg_data_list == old(sys).keyborg_data_list,
        old(sys).is_set_up(win) ==> ({
            let k = spec_win_index(old(sys).keyborg_data_list.0@, win);
            let entries0 = old(sys).keyborg_data_list.0@;
            let entries1 = final(sys).keyborg_data_list.0@;
            &&& entries1.len() == entries0.len()
            &&& (forall|j: int| 0 <= j < entries0.len() && j != k ==> entries1[j] == entries0[j])
            &&& entries1[k].win == win
            &&& entries1[k].data.doc == entries0[k].data.doc
            &&& entries1[k].data.shadow_targets == entries0[k].data.shadow_targets
            &&& entries1[k].data.last_focused_programmatically == Some(element)
        }),
{
    match sys.keyborg_data_list.find_index(win) {
        Some(i) => {
            sys.keyborg_data_list.set_marker(i, Some(element));
        },
        None => {},
    }
}

/// Tears down focus-event normalization for `win`: the document-level
/// listeners and the listeners of every registered boundary root are
/// detached, the registry is cleared, the environment's state is
/// dropped, and the original focus operation is restored if one was
/// intercepted.  Tearing down an environment that was never (or only
/// partially) set up does only whatever part applies.
pub fn dispose_focus_event(sys: &mut FocusEventSystem, win: u64) -> (r: DisposeFocusResult)
    ensures
        final(sys).can_override_native_focus == old(sys).can_override_native_focus,
        r.restore_native_focus == old(sys).native_focus_overridden@.contains(win),
        final(sys).native_focus_overridden@ == old(sys).native_focus_overridden@.remove_value(win),
        r.performed == old(sys).is_set_up(win),
        final(sys).keyborg_data_list.0@ == spec_remove_win(old(sys).keyborg_data_list.0@, win),
        !r.performed ==> final(sys).event_listener_map == old(sys).event_listener_map
            && r.detached_shadow_roots@ == Seq::<u64>::empty(),
        r.performed ==> (match spec_find(old(sys).keyborg_data_list.0@, win) {
            Some(d) => {
                &&& r.doc == d.doc
                &&& r.detached_shadow_roots@ == d.shadow_targets@
                &&& final(sys).event_listener_map.targets(FocusEventName::FocusIn)
                    == remove_all_values(
                    old(sys).event_listener_map.targets(FocusEventName::FocusIn).remove_value(
                        d.doc,
                    ),
                    d.shadow_targets@,
                )
                &&& final(sys).event_listener_map.targets(FocusEventName::FocusOut)
                    == remove_all_values(
                    old(sys).event_listener_map.targets(FocusEventName::FocusOut).remove_value(
                        d.doc,
                    ),
                    d.shadow_targets@,
                )
            },
            None => false,
        }),
{
    let restore_native_focus = contains_id(&sys.native_focus_overridden, win);
    remove_first_value(&mut sys.native_focus_overridden, win);

    match sys.keyborg_data_list.find_index(win) {
        None => DisposeFocusResult {
            performed: false,
            doc: 0,
            detached_shadow_roots: Vec::new(),
            restore_native_focus,
        },
        Some(i) => {
            let doc = sys.keyborg_data_list.0[i].data.doc;
            let targets = clone_ids(&sys.keyborg_data_list.0[i].data.shadow_targets);
            sys.keyborg_data_list.remove(win);
            sys.event_listener_map.remove(doc, FocusEventName::FocusIn);
            sys.event_listener_map.remove(doc, FocusEventName::FocusOut);
            let ghost map_in0 = sys.event_listener_map.targets(FocusEventName::FocusIn);
            let ghost map_out0 = sys.event_listener_map.targets(FocusEventName::FocusOut);
            let mut j: usize = 0;
            while j < targets.len()
                invariant
                    j <= targets.len(),
                    sys.event_listener_map.targets(FocusEventName::FocusIn) == remove_all_values(
                        map_in0,
                        targets@.take(j as int),
                    ),
                    sys.event_listener_map.targets(FocusEventName::FocusOut) == remove_all_values(
                        map_out0,
                        targets@.take(j as int),
                    ),
                    sys.keyborg_data_list.0@ == spec_remove_win(old(sys).keyborg_data_list.0@, win),
                    sys.native_focus_overridden@ == old(sys).native_focus_overridden@.remove_value(
                        win,
                    ),
                    sys.can_override_native_focus == old(sys).can_override_native_focus,
                decreases targets.len() - j,
            {
                proof {
                    assert(targets@.take(j + 1 as int).drop_last() =~= targets@.take(j as int));
                    assert(targets@.take(j + 1 as int).last() == targets@[j as int]);
                }
                sys.event_listener_map.remove(targets[j], FocusEventName::FocusIn);
                sys.event_listener_map.remove(targets[j], FocusEventName::FocusOut);
                j = j + 1;
            }
            proof {
                assert(targets@.take(targets@.len() as int) =~= targets@);
            }
            DisposeFocusResult {
                performed: true,
                doc,
                detached_shadow_roots: targets,
                restore_native_focus,
            }
        },
    }
}

} // verus!
