//! The mathematical model of the application core.
//!
//! [`AppView`] is the abstract state of an [`crate::app::Application`]:
//! the menu-index counter, the three registries, the native window's
//! recorded state and flags.  The spec functions below say exactly what
//! every operation of the core does to that state; the executable methods
//! ensure that their effect equals the corresponding spec function, and
//! the dispatch loop's contract is stated by folding them over the
//! pending events.

use vstd::prelude::*;

use crate::callback::Callback;
use crate::callback::NamedCallback;

verus! {

/// The abstract state of the application core and of the native window it
/// drives.
#[verifier::ext_equal]
pub struct AppView {
    /// The next free menu index; strictly increased by every allocation
    /// and never reused within a session.
    pub menu_idx: u32,
    /// The callback registered for each menu index that has one.
    pub callbacks: Map<u32, Callback>,
    /// Forward lookup: display name to menu index.
    pub items: Map<Seq<char>, u32>,
    /// Back lookup: menu index to display name.
    pub items_reversed: Map<u32, String>,
    /// The native menu rows by index; `None` marks a separator.
    pub window_entries: Map<u32, Option<String>>,
    /// The tooltip last forwarded to the window, if any.
    pub tooltip: Option<String>,
    /// The icon file path last forwarded to the window, if any.
    pub icon_file: Option<String>,
    /// The icon resource name last forwarded to the window, if any.
    pub icon_resource: Option<String>,
    /// Whether the window supports removing a menu entry once added.
    pub removal_supported: bool,
    /// Whether the window's native resources have been released.
    pub shut_down: bool,
    /// Whether the native message loop has been asked to stop.
    pub quit_requested: bool,
}

impl AppView {
    /// The state of a freshly constructed application: empty registries,
    /// an empty native menu, counter at zero, nothing requested yet.
    pub open spec fn initial(removal_supported: bool) -> AppView {
        AppView {
            menu_idx: 0,
            callbacks: Map::empty(),
            items: Map::empty(),
            items_reversed: Map::empty(),
            window_entries: Map::empty(),
            tooltip: None,
            icon_file: None,
            icon_resource: None,
            removal_supported,
            shut_down: false,
            quit_requested: false,
        }
    }

    /// Well-formedness of the core's registries.
    ///
    /// Every registered index — callback, name mapping or native row —
    /// lies below the counter, so the next allocation is fresh; and the
    /// forward name registry agrees with the back lookup: the index a
    /// name maps to maps back to that name.  (The back lookup may hold
    /// more: shadowing a display name, and removing one, leave the old
    /// index's row behind, exactly as inserting and deleting by the
    /// newest index leaves it.)
    pub open spec fn wf(self) -> bool {
        &&& forall|i: u32| #[trigger] self.callbacks.contains_key(i) ==> i < self.menu_idx
        &&& forall|n: Seq<char>| #[trigger] self.items.contains_key(n) ==> {
            &&& self.items[n] < self.menu_idx
            &&& self.items_reversed.contains_key(self.items[n])
            &&& self.items_reversed[self.items[n]]@ == n
        }
        &&& forall|i: u32| #[trigger] self.items_reversed.contains_key(i) ==> i < self.menu_idx
        &&& forall|i: u32| #[trigger] self.window_entries.contains_key(i) ==> i < self.menu_idx
    }
}

/// The effect of a successful `add_menu_item(name, cb)`: the current
/// counter value becomes the new entry's index, the entry is committed to
/// all three registries and to the native menu, and the counter advances.
/// An existing entry with the same display name is shadowed in the
/// forward registry; it stays dispatchable under its own index.
pub open spec fn spec_add_menu_item(v: AppView, name: String, cb: Callback) -> AppView {
    AppView {
        menu_idx: (v.menu_idx + 1) as u32,
        callbacks: v.callbacks.insert(v.menu_idx, cb),
        items: v.items.insert(name@, v.menu_idx),
        items_reversed: v.items_reversed.insert(v.menu_idx, name),
        window_entries: v.window_entries.insert(v.menu_idx, Some(name)),
        ..v
    }
}

/// The effect of a successful `add_menu_separator()`: a native row with no
/// name and no callback is created at the current counter value, and the
/// counter advances.
pub open spec fn spec_add_menu_separator(v: AppView) -> AppView {
    AppView {
        menu_idx: (v.menu_idx + 1) as u32,
        window_entries: v.window_entries.insert(v.menu_idx, None),
        ..v
    }
}

/// The effect of a successful `remove_menu_item(name)`: a no-op when the
/// name is not registered; otherwise the native row and both name
/// mappings go, while the callback table keeps its (now unreachable)
/// entry — indices are never reused, so the orphan can never be
/// dispatched again by the window.
pub open spec fn spec_remove_menu_item(v: AppView, name: String) -> AppView {
    if v.items.contains_key(name@) {
        AppView {
            items: v.items.remove(name@),
            items_reversed: v.items_reversed.remove(v.items[name@]),
            window_entries: v.window_entries.remove(v.items[name@]),
            ..v
        }
    } else {
        v
    }
}

/// The effect of `quit()`: the native message loop is asked to stop;
/// nothing else changes.
pub open spec fn spec_quit(v: AppView) -> AppView {
    AppView { quit_requested: true, ..v }
}

/// The effect of `shutdown()`: the native resources — the menu rows among
/// them — are released; the registries of the core are kept.
pub open spec fn spec_shutdown(v: AppView) -> AppView {
    AppView { window_entries: Map::empty(), shut_down: true, ..v }
}

/// The effect of a successful `set_tooltip(text)`.
pub open spec fn spec_set_tooltip(v: AppView, text: String) -> AppView {
    AppView { tooltip: Some(text), ..v }
}

/// The effect of a successful `set_icon_from_file(path)`.
pub open spec fn spec_set_icon_from_file(v: AppView, file: String) -> AppView {
    AppView { icon_file: Some(file), ..v }
}

/// The effect of a successful `set_icon_from_resource(resource)`.
pub open spec fn spec_set_icon_from_resource(v: AppView, resource: String) -> AppView {
    AppView { icon_resource: Some(resource), ..v }
}

/// What one callback does to the core when the dispatch loop runs it.
///
/// A callback swallows the errors of the operations it performs, as a
/// closure returning nothing would: an action whose operation would fail
/// — or, for an addition, whose index space is exhausted — leaves the
/// state unchanged.
pub open spec fn spec_step_callback(v: AppView, cb: Callback) -> AppView
    decreases cb,
{
    match cb {
        Callback::Nop => v,
        Callback::Quit => spec_quit(v),
        Callback::AddItem(name, inner) => {
            if v.menu_idx == u32::MAX || v.shut_down {
                v
            } else {
                spec_add_menu_item(v, name, *inner)
            }
        },
        Callback::AddSeparator => {
            if v.menu_idx == u32::MAX || v.shut_down {
                v
            } else {
                spec_add_menu_separator(v)
            }
        },
        Callback::RemoveItem(name) => {
            if !v.items.contains_key(name@) {
                v
            } else if v.removal_supported && !v.shut_down {
                spec_remove_menu_item(v, name)
            } else {
                v
            }
        },
        Callback::SetTooltip(text) => {
            if v.shut_down {
                v
            } else {
                spec_set_tooltip(v, text)
            }
        },
    }
}

/// What the name-aware handler does to the core, given the display name
/// of the entry the event was dispatched to.
pub open spec fn spec_step_named(v: AppView, handler: NamedCallback, name: String) -> AppView {
    match handler {
        NamedCallback::Nop => v,
        NamedCallback::SetTooltipToName => {
            if v.shut_down {
                v
            } else {
                spec_set_tooltip(v, name)
            }
        },
        NamedCallback::RemoveNamed => {
            if !v.items.contains_key(name@) {
                v
            } else if v.removal_supported && !v.shut_down {
                spec_remove_menu_item(v, name)
            } else {
                v
            }
        },
        NamedCallback::Run(cb) => spec_step_callback(v, cb),
    }
}

/// The effect of dispatching one event carrying menu index `i`.
///
/// An index with no registered callback is silently dropped.  Otherwise
/// the callback is removed from the table, run against a state in which
/// its own entry is structurally absent — so a callback never observes a
/// registry entry for the index currently being invoked — and reinserted
/// under the same index afterwards.
pub open spec fn spec_dispatch(v: AppView, i: u32) -> AppView {
    if v.callbacks.contains_key(i) {
        let cb = v.callbacks[i];
        let removed = AppView { callbacks: v.callbacks.remove(i), ..v };
        let stepped = spec_step_callback(removed, cb);
        AppView { callbacks: stepped.callbacks.insert(i, cb), ..stepped }
    } else {
        v
    }
}

/// The effect of dispatching one event carrying menu index `i` in the
/// name-aware loop: as [`spec_dispatch`], and — when the entry still has
/// a display name afterwards — the user handler runs with that name.
/// An event with no registered callback never reaches the handler.
pub open spec fn spec_dispatch_named(v: AppView, i: u32, handler: NamedCallback) -> AppView {
    if v.callbacks.contains_key(i) {
        let after = spec_dispatch(v, i);
        if after.items_reversed.contains_key(i) {
            spec_step_named(after, handler, after.items_reversed[i])
        } else {
            after
        }
    } else {
        v
    }
}

/// The effect of the blocking dispatch loop on the core, folded over the
/// pending events: each event is dispatched in order, and when the
/// channel is exhausted — the producer is gone — the loop requests quit
/// exactly once and terminates.
pub open spec fn spec_run_loop(v: AppView, events: Seq<u32>) -> AppView
    decreases events.len(),
{
    if events.len() == 0 {
        spec_quit(v)
    } else {
        spec_run_loop(spec_dispatch(v, events[0]), events.drop_first())
    }
}

/// As [`spec_run_loop`], for the name-aware loop.
pub open spec fn spec_run_loop_named(v: AppView, events: Seq<u32>, handler: NamedCallback) -> AppView
    decreases events.len(),
{
    if events.len() == 0 {
        spec_quit(v)
    } else {
        spec_run_loop_named(spec_dispatch_named(v, events[0], handler), events.drop_first(), handler)
    }
}

/// A sequence of callback actions applied in order: the shape of any
/// interleaving of additions, separators, removals and cosmetic calls.
pub open spec fn spec_apply_callbacks(v: AppView, ops: Seq<Callback>) -> AppView
    decreases ops.len(),
{
    if ops.len() == 0 {
        v
    } else {
        spec_apply_callbacks(spec_step_callback(v, ops[0]), ops.drop_first())
    }
}

/// No operation a callback can perform ever lowers the menu counter.
pub proof fn lemma_step_callback_menu_idx_monotonic(v: AppView, cb: Callback)
    ensures
        v.menu_idx <= spec_step_callback(v, cb).menu_idx,
{
}

/// The counter never goes down across any sequence of operations —
/// removals included — so an index, once assigned, is never assigned
/// again.
pub proof fn lemma_apply_callbacks_menu_idx_monotonic(v: AppView, ops: Seq<Callback>)
    ensures
        v.menu_idx <= spec_apply_callbacks(v, ops).menu_idx,
    decreases ops.len(),
{
    if ops.len() > 0 {
        lemma_step_callback_menu_idx_monotonic(v, ops[0]);
        lemma_apply_callbacks_menu_idx_monotonic(spec_step_callback(v, ops[0]), ops.drop_first());
    }
}

/// Indices are assigned strictly increasing: an addition assigns the
/// current counter value and advances it, and whatever operations follow
/// — further additions, separators, interleaved removals — every later
/// addition assigns a strictly larger index, with no repeats.
pub proof fn lemma_assigned_indices_strictly_increase(
    v: AppView,
    name: String,
    cb: Callback,
    ops: Seq<Callback>,
)
    requires
        v.menu_idx < u32::MAX,
    ensures
        v.menu_idx < spec_apply_callbacks(spec_add_menu_item(v, name, cb), ops).menu_idx,
{
    lemma_apply_callbacks_menu_idx_monotonic(spec_add_menu_item(v, name, cb), ops);
}

/// In a well-formed state the next index to be assigned is fresh: no
/// callback, no name mapping and no native row exists for it.
pub proof fn lemma_next_index_fresh(v: AppView)
    requires
        v.wf(),
    ensures
        !v.callbacks.contains_key(v.menu_idx),
        !v.items_reversed.contains_key(v.menu_idx),
        !v.window_entries.contains_key(v.menu_idx),
        forall|n: Seq<char>| #[trigger] v.items.contains_key(n) ==> v.items[n] != v.menu_idx,
{
}

/// Removing a display name is idempotent: the first removal leaves the
/// name unregistered, and removing it again changes nothing (and so, at
/// the call level, succeeds as a no-op).
pub proof fn lemma_remove_menu_item_idempotent(v: AppView, name: String)
    ensures
        !spec_remove_menu_item(v, name).items.contains_key(name@),
        spec_remove_menu_item(spec_remove_menu_item(v, name), name) == spec_remove_menu_item(
            v,
            name,
        ),
{
}

/// After adding a name and removing it again, adding it anew assigns a
/// strictly larger index than the first addition did: removal does not
/// return an index to the allocator.
pub proof fn lemma_index_not_reused_after_remove(
    v: AppView,
    name: String,
    cb1: Callback,
    cb2: Callback,
)
    requires
        v.menu_idx < u32::MAX,
    ensures
        ({
            let v1 = spec_add_menu_item(v, name, cb1);
            let v2 = spec_remove_menu_item(v1, name);
            &&& v2.menu_idx == v1.menu_idx
            &&& v2.menu_idx > v.menu_idx
        }),
{
}

/// Additions preserve well-formedness.
pub proof fn lemma_add_menu_item_preserves_wf(v: AppView, name: String, cb: Callback)
    requires
        v.wf(),
        v.menu_idx < u32::MAX,
    ensures
        spec_add_menu_item(v, name, cb).wf(),
{
}

/// Separators preserve well-formedness.
pub proof fn lemma_add_menu_separator_preserves_wf(v: AppView)
    requires
        v.wf(),
        v.menu_idx < u32::MAX,
    ensures
        spec_add_menu_separator(v).wf(),
{
}

/// Removals preserve well-formedness.
pub proof fn lemma_remove_menu_item_preserves_wf(v: AppView, name: String)
    requires
        v.wf(),
    ensures
        spec_remove_menu_item(v, name).wf(),
{
}

/// Running any callback preserves well-formedness of the registries.
pub proof fn lemma_step_callback_preserves_wf(v: AppView, cb: Callback)
    requires
        v.wf(),
    ensures
        spec_step_callback(v, cb).wf(),
{
    match cb {
        Callback::AddItem(name, inner) => {
            if !(v.menu_idx == u32::MAX || v.shut_down) {
                lemma_add_menu_item_preserves_wf(v, name, *inner);
            }
        },
        Callback::AddSeparator => {
            if !(v.menu_idx == u32::MAX || v.shut_down) {
                lemma_add_menu_separator_preserves_wf(v);
            }
        },
        Callback::RemoveItem(name) => {
            lemma_remove_menu_item_preserves_wf(v, name);
        },
        _ => {},
    }
}

/// Running the name-aware handler preserves well-formedness.
pub proof fn lemma_step_named_preserves_wf(v: AppView, handler: NamedCallback, name: String)
    requires
        v.wf(),
    ensures
        spec_step_named(v, handler, name).wf(),
{
    match handler {
        NamedCallback::RemoveNamed => {
            lemma_remove_menu_item_preserves_wf(v, name);
        },
        NamedCallback::Run(cb) => {
            lemma_step_callback_preserves_wf(v, cb);
        },
        _ => {},
    }
}

/// Dispatching an event never corrupts the callback table: the registries
/// stay well-formed, however the invoked callback mutates them.
pub proof fn lemma_dispatch_preserves_wf(v: AppView, i: u32)
    requires
        v.wf(),
    ensures
        spec_dispatch(v, i).wf(),
{
    if v.callbacks.contains_key(i) {
        let cb = v.callbacks[i];
        let removed = AppView { callbacks: v.callbacks.remove(i), ..v };
        assert(removed.wf());
        lemma_step_callback_preserves_wf(removed, cb);
        lemma_step_callback_menu_idx_monotonic(removed, cb);
    }
}

/// As [`lemma_dispatch_preserves_wf`], for the name-aware dispatch.
pub proof fn lemma_dispatch_named_preserves_wf(v: AppView, i: u32, handler: NamedCallback)
    requires
        v.wf(),
    ensures
        spec_dispatch_named(v, i, handler).wf(),
{
    if v.callbacks.contains_key(i) {
        lemma_dispatch_preserves_wf(v, i);
        let after = spec_dispatch(v, i);
        if after.items_reversed.contains_key(i) {
            lemma_step_named_preserves_wf(after, handler, after.items_reversed[i]);
        }
    }
}

/// The whole dispatch loop preserves well-formedness.
pub proof fn lemma_run_loop_preserves_wf(v: AppView, events: Seq<u32>)
    requires
        v.wf(),
    ensures
        spec_run_loop(v, events).wf(),
    decreases events.len(),
{
    if events.len() > 0 {
        lemma_dispatch_preserves_wf(v, events[0]);
        lemma_run_loop_preserves_wf(spec_dispatch(v, events[0]), events.drop_first());
    }
}

/// The whole name-aware dispatch loop preserves well-formedness.
pub proof fn lemma_run_loop_named_preserves_wf(
    v: AppView,
    events: Seq<u32>,
    handler: NamedCallback,
)
    requires
        v.wf(),
    ensures
        spec_run_loop_named(v, events, handler).wf(),
    decreases events.len(),
{
    if events.len() > 0 {
        lemma_dispatch_named_preserves_wf(v, events[0], handler);
        lemma_run_loop_named_preserves_wf(
            spec_dispatch_named(v, events[0], handler),
            events.drop_first(),
            handler,
        );
    }
}

/// Dispatching an event for an index with no registered callback — a
/// separator click, or a callback removed mid-flight — is a no-op: no
/// callback fires, no handler runs, nothing changes.
pub proof fn lemma_dispatch_without_callback_is_no_op(v: AppView, i: u32, handler: NamedCallback)
    requires
        !v.callbacks.contains_key(i),
    ensures
        spec_dispatch(v, i) == v,
        spec_dispatch_named(v, i, handler) == v,
{
}

/// A callback that adds a menu entry from inside its own invocation does
/// not corrupt the callback table: after the dispatch the invoking entry
/// is back under its own index, the new entry is registered — with its
/// action and its display name — under the freshly assigned index, and
/// the registries are still well-formed, so the new entry is
/// dispatchable by a later event.
pub proof fn lemma_callback_may_extend_menu(v: AppView, i: u32)
    requires
        v.wf(),
        !v.shut_down,
        v.menu_idx < u32::MAX,
        v.callbacks.contains_key(i),
        v.callbacks[i] is AddItem,
    ensures
        ({
            let r = spec_dispatch(v, i);
            let cb = v.callbacks[i];
            &&& r.wf()
            &&& r.callbacks.contains_key(i) && r.callbacks[i] == cb
            &&& r.callbacks.contains_key(v.menu_idx)
            &&& (cb matches Callback::AddItem(name, inner) ==> {
                &&& r.callbacks[v.menu_idx] == *inner
                &&& r.items_reversed.contains_key(v.menu_idx)
                &&& r.items_reversed[v.menu_idx] == name
                &&& r.menu_idx > v.menu_idx
            })
        }),
{
    lemma_dispatch_preserves_wf(v, i);
}

} // verus!
