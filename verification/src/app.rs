//! The application core: index allocation, the registries, and the
//! dispatch loop.
//!
//! [`Application`] owns the menu-index counter, the callback table, the
//! two name registries, the [`Window`] collaborator and the queue of
//! pending click events (the receiving end of the channel the window
//! produces into).  Every method's contract states its exact effect on
//! the abstract state [`AppView`] through the spec functions of
//! [`crate::model`].

use vstd::prelude::*;

use crate::SystrayError;
use crate::SystrayEvent;
use crate::callback::Callback;
use crate::callback::NamedCallback;
use crate::model::AppView;
use crate::model::spec_add_menu_item;
use crate::model::spec_add_menu_separator;
use crate::model::spec_remove_menu_item;
use crate::model::spec_quit;
use crate::model::spec_shutdown;
use crate::model::spec_set_tooltip;
use crate::model::spec_set_icon_from_file;
use crate::model::spec_set_icon_from_resource;
use crate::model::spec_step_callback;
use crate::model::spec_step_named;
use crate::model::spec_dispatch;
use crate::model::spec_dispatch_named;
use crate::model::spec_run_loop;
use crate::model::spec_run_loop_named;
use crate::model::lemma_add_menu_item_preserves_wf;
use crate::model::lemma_add_menu_separator_preserves_wf;
use crate::model::lemma_remove_menu_item_preserves_wf;
use crate::window::Window;
use crate::window::shut_down_message;
use std::collections::HashMap;

verus! {

broadcast use vstd::std_specs::hash::group_hash_axioms;

/// No two rows of the forward name registry carry the same display name.
spec fn items_names_unique(s: Seq<(String, u32)>) -> bool {
    forall|i: int, j: int| 0 <= i < j < s.len() ==> s[i].0@ != s[j].0@
}

/// The forward name registry read as a map from display name to index.
spec fn items_map(s: Seq<(String, u32)>) -> Map<Seq<char>, u32> {
    Map::new(
        |n: Seq<char>| exists|i: int| 0 <= i < s.len() && s[i].0@ == n,
        |n: Seq<char>| s[choose|i: int| 0 <= i < s.len() && s[i].0@ == n].1,
    )
}

proof fn lemma_items_map_entry(s: Seq<(String, u32)>, i: int)
    requires
        items_names_unique(s),
        0 <= i < s.len(),
    ensures
        items_map(s).contains_key(s[i].0@),
        items_map(s)[s[i].0@] == s[i].1,
{
    let n = s[i].0@;
    assert(items_map(s).contains_key(n)) by {
        assert(0 <= i < s.len() && s[i].0@ == n);
    }
    let j = choose|j: int| 0 <= j < s.len() && s[j].0@ == n;
    if j < i {
        assert(s[j].0@ != s[i].0@);
    } else if i < j {
        assert(s[i].0@ != s[j].0@);
    }
    assert(j == i);
}

proof fn lemma_items_map_absent(s: Seq<(String, u32)>, n: Seq<char>)
    requires
        forall|i: int| 0 <= i < s.len() ==> s[i].0@ != n,
    ensures
        !items_map(s).contains_key(n),
{
    if items_map(s).contains_key(n) {
        let i = choose|i: int| 0 <= i < s.len() && s[i].0@ == n;
        assert(s[i].0@ != n);
    }
}

proof fn lemma_items_map_remove(s: Seq<(String, u32)>, p: int)
    requires
        items_names_unique(s),
        0 <= p < s.len(),
    ensures
        items_names_unique(s.remove(p)),
        forall|i: int| 0 <= i < s.remove(p).len() ==> s.remove(p)[i].0@ != s[p].0@,
        items_map(s.remove(p)) == items_map(s).remove(s[p].0@),
{
    let t = s.remove(p);
    let nm = s[p].0@;
    assert(t.len() == s.len() - 1);
    assert(forall|i: int| 0 <= i < p ==> t[i] == s[i]);
    assert(forall|i: int| p <= i < t.len() ==> t[i] == s[i + 1]);
    assert forall|i: int, j: int| 0 <= i < j < t.len() implies t[i].0@ != t[j].0@ by {
        let oi = if i < p { i } else { i + 1 };
        let oj = if j < p { j } else { j + 1 };
        assert(t[i] == s[oi] && t[j] == s[oj]);
        assert(s[oi].0@ != s[oj].0@);
    }
    assert forall|i: int| 0 <= i < t.len() implies t[i].0@ != nm by {
        let oi = if i < p { i } else { i + 1 };
        assert(t[i] == s[oi]);
        if oi < p {
            assert(s[oi].0@ != s[p].0@);
        } else {
            assert(s[p].0@ != s[oi].0@);
        }
    }
    let m1 = items_map(t);
    let m2 = items_map(s).remove(nm);
    assert forall|n: Seq<char>| #[trigger] m1.contains_key(n) implies m2.contains_key(n) && m1[n]
        == m2[n] by {
        let i = choose|i: int| 0 <= i < t.len() && t[i].0@ == n;
        let oi = if i < p { i } else { i + 1 };
        assert(t[i] == s[oi]);
        assert(s[oi].0@ == n);
        assert(n != nm);
        lemma_items_map_entry(t, i);
        lemma_items_map_entry(s, oi);
    }
    assert forall|n: Seq<char>| #[trigger] m2.contains_key(n) implies m1.contains_key(n) by {
        assert(items_map(s).contains_key(n) && n != nm);
        let oi = choose|oi: int| 0 <= oi < s.len() && s[oi].0@ == n;
        assert(oi != p);
        let i = if oi < p { oi } else { oi - 1 };
        assert(t[i] == s[oi]);
        assert(0 <= i < t.len() && t[i].0@ == n);
    }
    assert(m1 =~= m2);
}

proof fn lemma_items_map_push(s: Seq<(String, u32)>, name: String, idx: u32)
    requires
        items_names_unique(s),
        forall|i: int| 0 <= i < s.len() ==> s[i].0@ != name@,
    ensures
        items_names_unique(s.push((name, idx))),
        items_map(s.push((name, idx))) == items_map(s).insert(name@, idx),
{
    let t = s.push((name, idx));
    assert(t.len() == s.len() + 1);
    assert(forall|i: int| 0 <= i < s.len() ==> t[i] == s[i]);
    assert(t[s.len() as int] == (name, idx));
    assert forall|i: int, j: int| 0 <= i < j < t.len() implies t[i].0@ != t[j].0@ by {
        if j < s.len() {
            assert(s[i].0@ != s[j].0@);
        } else {
            assert(t[j].0@ == name@);
            assert(s[i].0@ != name@);
        }
    }
    let m1 = items_map(t);
    let m2 = items_map(s).insert(name@, idx);
    assert forall|n: Seq<char>| #[trigger] m1.contains_key(n) implies m2.contains_key(n) && m1[n]
        == m2[n] by {
        let i = choose|i: int| 0 <= i < t.len() && t[i].0@ == n;
        lemma_items_map_entry(t, i);
        if i == s.len() {
            assert(n == name@);
        } else {
            assert(t[i] == s[i]);
            assert(n != name@);
            lemma_items_map_entry(s, i);
        }
    }
    assert forall|n: Seq<char>| #[trigger] m2.contains_key(n) implies m1.contains_key(n) by {
        if n == name@ {
            assert(t[s.len() as int].0@ == n);
        } else {
            assert(items_map(s).contains_key(n));
            let oi = choose|oi: int| 0 <= oi < s.len() && s[oi].0@ == n;
            assert(t[oi] == s[oi]);
            assert(0 <= oi < t.len() && t[oi].0@ == n);
        }
    }
    assert(m1 =~= m2);
}

/// Scan the forward registry for a display name; the position of the
/// row carrying it, or `None` when no row does.
fn items_find(items: &Vec<(String, u32)>, name: &String) -> (r: Option<usize>)
    ensures
        match r {
            Some(p) => p < items@.len() && items@[p as int].0@ == name@,
            None => forall|i: int| 0 <= i < items@.len() ==> items@[i].0@ != name@,
        },
{
    let n = items.len();
    let mut i: usize = 0;
    while i < n
        invariant
            n == items@.len(),
            i <= n,
            forall|j: int| 0 <= j < i ==> items@[j].0@ != name@,
        decreases n - i,
    {
        if items[i].0 == *name {
            return Some(i);
        }
        i = i + 1;
    }
    None
}

/// The application core: the sole stateful entity.  It owns the window,
/// allocates menu indices, keeps the registries, and runs the dispatch
/// loop that routes click events to callbacks.
pub struct Application {
    window: Window,
    menu_idx: u32,
    callback: HashMap<u32, Callback>,
    items: Vec<(String, u32)>,
    items_reversed: HashMap<u32, String>,
    events: Vec<u32>,
}

impl View for Application {
    type V = AppView;

    closed spec fn view(&self) -> AppView {
        AppView {
            menu_idx: self.menu_idx,
            callbacks: self.callback@,
            items: items_map(self.items@),
            items_reversed: self.items_reversed@,
            window_entries: self.window.entries@,
            tooltip: self.window.tooltip,
            icon_file: self.window.icon_file,
            icon_resource: self.window.icon_resource,
            removal_supported: self.window.removal_supported,
            shut_down: self.window.shut_down,
            quit_requested: self.window.quit_requested,
        }
    }
}

impl Application {
    /// The representation invariant: unique rows in the forward name
    /// registry, and a well-formed abstract state.
    pub closed spec fn inv(&self) -> bool {
        &&& items_names_unique(self.items@)
        &&& self@.wf()
    }

    /// The menu indices of the events received and not yet dispatched,
    /// oldest first.
    pub closed spec fn pending_events(&self) -> Seq<u32> {
        self.events@
    }

    /// Build the core around an already constructed platform window.
    /// The window must be fresh: nothing shown, nothing requested yet.
    pub fn from_window(window: Window) -> (app: Application)
        requires
            window.entries@ == Map::<u32, Option<String>>::empty(),
            window.tooltip is None,
            window.icon_file is None,
            window.icon_resource is None,
            !window.shut_down,
            !window.quit_requested,
        ensures
            app.inv(),
            app@ == AppView::initial(window.removal_supported),
            app.pending_events() == Seq::<u32>::empty(),
    {
        let app = Application {
            window,
            menu_idx: 0,
            callback: HashMap::new(),
            items: Vec::new(),
            items_reversed: HashMap::new(),
            events: Vec::new(),
        };
        proof {
            assert(items_map(app.items@) =~= Map::<Seq<char>, u32>::empty()) by {
                assert forall|n: Seq<char>| !(#[trigger] items_map(
                    app.items@,
                ).contains_key(n)) by {
                    lemma_items_map_absent(app.items@, n);
                }
            }
            assert(app@ =~= AppView::initial(window.removal_supported));
        }
        app
    }

    /// Construct the application: open the event channel, create the
    /// platform window, and start with empty registries.  On this
    /// platform the window supports dynamic menu-entry removal.
    pub fn new() -> (r: Result<Application, SystrayError>)
        ensures
            r is Ok,
            r matches Ok(app) ==> {
                &&& app.inv()
                &&& app@ == AppView::initial(true)
                &&& app.pending_events() == Seq::<u32>::empty()
            },
    {
        let window = Window::new(true);
        Ok(Application::from_window(window))
    }

    /// Record one event produced by the platform window: the user
    /// clicked the menu entry with the given index.
    pub fn post_event(&mut self, event: SystrayEvent)
        requires
            old(self).inv(),
        ensures
            final(self).inv(),
            final(self)@ == old(self)@,
            final(self).pending_events() == old(self).pending_events().push(event.menu_index),
    {
        self.events.push(event.menu_index);
    }

    /// Allocate the next index, ask the window for a native entry with
    /// the given label there, and — only if that succeeds — commit the
    /// index, name and callback to all three registries and advance the
    /// counter.  On window failure nothing is committed.  A second entry
    /// under an already used display name shadows the first in the
    /// forward registry; both stay dispatchable by index.
    pub fn add_menu_item(&mut self, item_name: &String, f: Callback) -> (r: Result<
        u32,
        SystrayError,
    >)
        requires
            old(self).inv(),
            old(self)@.menu_idx < u32::MAX,
        ensures
            final(self).inv(),
            final(self).pending_events() == old(self).pending_events(),
            old(self)@.shut_down ==> {
                &&& final(self)@ == old(self)@
                &&& r matches Err(SystrayError::OsError(m)) && m@ == shut_down_message()
            },
            !old(self)@.shut_down ==> {
                &&& r == Ok::<u32, SystrayError>(old(self)@.menu_idx)
                &&& final(self)@ == spec_add_menu_item(old(self)@, *item_name, f)
            },
    {
        let idx = self.menu_idx;
        match self.window.add_menu_entry(idx, item_name) {
            Err(e) => {
                proof {
                    assert(self@ =~= old(self)@);
                }
                return Err(e);
            },
            Ok(_) => {},
        }
        let ghost pre_items = self.items@;
        let pos = items_find(&self.items, item_name);
        match pos {
            Some(p) => {
                proof {
                    lemma_items_map_remove(self.items@, p as int);
                }
                let _ = self.items.remove(p);
            },
            None => {},
        }
        proof {
            lemma_items_map_push(self.items@, *item_name, idx);
            assert(items_map(self.items@.push((*item_name, idx))) =~= items_map(
                pre_items,
            ).insert(item_name@, idx));
        }
        self.items.push((item_name.clone(), idx));
        self.items_reversed.insert(idx, item_name.clone());
        self.callback.insert(idx, f);
        self.menu_idx = idx + 1;
        proof {
            assert(self@ =~= spec_add_menu_item(old(self)@, *item_name, f));
            lemma_add_menu_item_preserves_wf(old(self)@, *item_name, f);
        }
        Ok(idx)
    }

    /// Allocate the next index and ask the window for a separator row
    /// there; a separator registers no name and no callback, it occupies
    /// an index purely to keep the native indices dense.
    pub fn add_menu_separator(&mut self) -> (r: Result<u32, SystrayError>)
        requires
            old(self).inv(),
            old(self)@.menu_idx < u32::MAX,
        ensures
            final(self).inv(),
            final(self).pending_events() == old(self).pending_events(),
            old(self)@.shut_down ==> {
                &&& final(self)@ == old(self)@
                &&& r matches Err(SystrayError::OsError(m)) && m@ == shut_down_message()
            },
            !old(self)@.shut_down ==> {
                &&& r == Ok::<u32, SystrayError>(old(self)@.menu_idx)
                &&& final(self)@ == spec_add_menu_separator(old(self)@)
            },
    {
        let idx = self.menu_idx;
        match self.window.add_menu_separator(idx) {
            Err(e) => {
                proof {
                    assert(self@ =~= old(self)@);
                }
                return Err(e);
            },
            Ok(_) => {},
        }
        self.menu_idx = idx + 1;
        proof {
            assert(self@ =~= spec_add_menu_separator(old(self)@));
            lemma_add_menu_separator_preserves_wf(old(self)@);
        }
        Ok(idx)
    }

    /// Remove the entry registered under the given display name.  An
    /// unregistered name succeeds as a no-op — removal is idempotent.
    /// Otherwise the window deletes the native entry first, and only on
    /// its success do the name mappings go; the callback table keeps its
    /// entry for the dead index, which — indices being never reused —
    /// can never be dispatched by the window again.
    pub fn remove_menu_item(&mut self, item_name: &String) -> (r: Result<(), SystrayError>)
        requires
            old(self).inv(),
        ensures
            final(self).inv(),
            final(self).pending_events() == old(self).pending_events(),
            !old(self)@.items.contains_key(item_name@) ==> {
                &&& r is Ok
                &&& final(self)@ == old(self)@
            },
            old(self)@.items.contains_key(item_name@) && !old(self)@.removal_supported ==> {
                &&& final(self)@ == old(self)@
                &&& r matches Err(e) && e is NotImplementedError
            },
            old(self)@.items.contains_key(item_name@) && old(self)@.removal_supported && old(
                self,
            )@.shut_down ==> {
                &&& final(self)@ == old(self)@
                &&& r matches Err(SystrayError::OsError(m)) && m@ == shut_down_message()
            },
            old(self)@.items.contains_key(item_name@) && old(self)@.removal_supported && !old(
                self,
            )@.shut_down ==> {
                &&& r is Ok
                &&& final(self)@ == spec_remove_menu_item(old(self)@, *item_name)
            },
    {
        let pos = items_find(&self.items, item_name);
        match pos {
            None => {
                proof {
                    lemma_items_map_absent(self.items@, item_name@);
                }
                Ok(())
            },
            Some(p) => {
                proof {
                    lemma_items_map_entry(self.items@, p as int);
                }
                let idx = self.items[p].1;
                match self.window.remove_menu_entry(idx) {
                    Err(e) => {
                        proof {
                            assert(self@ =~= old(self)@);
                        }
                        return Err(e);
                    },
                    Ok(_) => {},
                }
                proof {
                    lemma_items_map_remove(self.items@, p as int);
                }
                let _ = self.items.remove(p);
                let _ = self.items_reversed.remove(&idx);
                proof {
                    assert(self@ =~= spec_remove_menu_item(old(self)@, *item_name));
                    lemma_remove_menu_item_preserves_wf(old(self)@, *item_name);
                }
                Ok(())
            },
        }
    }

    /// Forward an icon-from-file request to the window.
    pub fn set_icon_from_file(&mut self, file: &String) -> (r: Result<(), SystrayError>)
        requires
            old(self).inv(),
        ensures
            final(self).inv(),
            final(self).pending_events() == old(self).pending_events(),
            old(self)@.shut_down ==> {
                &&& final(self)@ == old(self)@
                &&& r matches Err(SystrayError::OsError(m)) && m@ == shut_down_message()
            },
            !old(self)@.shut_down ==> {
                &&& r is Ok
                &&& final(self)@ == spec_set_icon_from_file(old(self)@, *file)
            },
    {
        let r = self.window.set_icon_from_file(file);
        proof {
            if old(self)@.shut_down {
                assert(self@ =~= old(self)@);
            } else {
                assert(self@ =~= spec_set_icon_from_file(old(self)@, *file));
            }
        }
        r
    }

    /// Forward an icon-from-resource request to the window.
    pub fn set_icon_from_resource(&mut self, resource: &String) -> (r: Result<(), SystrayError>)
        requires
            old(self).inv(),
        ensures
            final(self).inv(),
            final(self).pending_events() == old(self).pending_events(),
            old(self)@.shut_down ==> {
                &&& final(self)@ == old(self)@
                &&& r matches Err(SystrayError::OsError(m)) && m@ == shut_down_message()
            },
            !old(self)@.shut_down ==> {
                &&& r is Ok
                &&& final(self)@ == spec_set_icon_from_resource(old(self)@, *resource)
            },
    {
        let r = self.window.set_icon_from_resource(resource);
        proof {
            if old(self)@.shut_down {
                assert(self@ =~= old(self)@);
            } else {
                assert(self@ =~= spec_set_icon_from_resource(old(self)@, *resource));
            }
        }
        r
    }

    /// Forward a tooltip request to the window.
    pub fn set_tooltip(&mut self, tooltip: &String) -> (r: Result<(), SystrayError>)
        requires
            old(self).inv(),
        ensures
            final(self).inv(),
            final(self).pending_events() == old(self).pending_events(),
            old(self)@.shut_down ==> {
                &&& final(self)@ == old(self)@
                &&& r matches Err(SystrayError::OsError(m)) && m@ == shut_down_message()
            },
            !old(self)@.shut_down ==> {
                &&& r is Ok
                &&& final(self)@ == spec_set_tooltip(old(self)@, *tooltip)
            },
    {
        let r = self.window.set_tooltip(tooltip);
        proof {
            if old(self)@.shut_down {
                assert(self@ =~= old(self)@);
            } else {
                assert(self@ =~= spec_set_tooltip(old(self)@, *tooltip));
            }
        }
        r
    }

    /// Forward a shutdown request to the window: release the native
    /// resources.  Idempotent; never fails.
    pub fn shutdown(&mut self) -> (r: Result<(), SystrayError>)
        requires
            old(self).inv(),
        ensures
            final(self).inv(),
            final(self).pending_events() == old(self).pending_events(),
            r is Ok,
            final(self)@ == spec_shutdown(old(self)@),
    {
        let r = self.window.shutdown();
        proof {
            assert(self@ =~= spec_shutdown(old(self)@));
        }
        r
    }

    /// Ask the window to terminate its native message loop.  This does
    /// not stop the dispatch loop; the loop ends when the channel
    /// closes.
    pub fn quit(&mut self)
        requires
            old(self).inv(),
        ensures
            final(self).inv(),
            final(self).pending_events() == old(self).pending_events(),
            final(self)@ == spec_quit(old(self)@),
    {
        self.window.quit();
        proof {
            assert(self@ =~= spec_quit(old(self)@));
        }
    }

    /// Run one callback with exclusive access to the core.  A callback
    /// swallows the errors of the operations it performs; an addition is
    /// skipped when the index space is exhausted.
    fn run_callback(&mut self, cb: &Callback)
        requires
            old(self).inv(),
        ensures
            final(self).inv(),
            final(self).pending_events() == old(self).pending_events(),
            final(self)@ == spec_step_callback(old(self)@, *cb),
    {
        match cb {
            Callback::Nop => {},
            Callback::Quit => {
                self.quit();
            },
            Callback::AddItem(name, inner) => {
                if self.menu_idx < u32::MAX {
                    let _ = self.add_menu_item(name, (**inner).clone());
                }
            },
            Callback::AddSeparator => {
                if self.menu_idx < u32::MAX {
                    let _ = self.add_menu_separator();
                }
            },
            Callback::RemoveItem(name) => {
                let _ = self.remove_menu_item(name);
            },
            Callback::SetTooltip(text) => {
                let _ = self.set_tooltip(text);
            },
        }
    }

    /// Run the name-aware handler with the display name of the entry the
    /// event was dispatched to.
    fn run_named(&mut self, handler: &NamedCallback, name: String)
        requires
            old(self).inv(),
        ensures
            final(self).inv(),
            final(self).pending_events() == old(self).pending_events(),
            final(self)@ == spec_step_named(old(self)@, *handler, name),
    {
        match handler {
            NamedCallback::Nop => {},
            NamedCallback::SetTooltipToName => {
                let _ = self.set_tooltip(&name);
            },
            NamedCallback::RemoveNamed => {
                let _ = self.remove_menu_item(&name);
            },
            NamedCallback::Run(cb) => {
                self.run_callback(cb);
            },
        }
    }

    /// Dispatch one event.  An index with no registered callback is
    /// silently dropped.  Otherwise the callback is removed from the
    /// table, run — so it never observes a registry entry for the index
    /// currently being invoked, and may freely mutate the table itself —
    /// and reinserted under the same index.
    pub fn dispatch_event(&mut self, menu_index: u32)
        requires
            old(self).inv(),
        ensures
            final(self).inv(),
            final(self).pending_events() == old(self).pending_events(),
            final(self)@ == spec_dispatch(old(self)@, menu_index),
    {
        if self.callback.contains_key(&menu_index) {
            let f = self.callback.remove(&menu_index).unwrap();
            proof {
                assert(self@ =~= (AppView {
                    callbacks: old(self)@.callbacks.remove(menu_index),
                    ..old(self)@
                }));
            }
            self.run_callback(&f);
            self.callback.insert(menu_index, f);
            proof {
                assert(self@ =~= spec_dispatch(old(self)@, menu_index));
            }
        }
    }

    /// Dispatch one event in the name-aware loop: as
    /// [`Application::dispatch_event`], and — when the entry still has a
    /// display name afterwards — the handler runs with that name.
    pub fn dispatch_event_named(&mut self, menu_index: u32, handler: &NamedCallback)
        requires
            old(self).inv(),
        ensures
            final(self).inv(),
            final(self).pending_events() == old(self).pending_events(),
            final(self)@ == spec_dispatch_named(old(self)@, menu_index, *handler),
    {
        if self.callback.contains_key(&menu_index) {
            self.dispatch_event(menu_index);
            let name = match self.items_reversed.get(&menu_index) {
                Some(nm) => Some(nm.clone()),
                None => None,
            };
            match name {
                Some(nm) => {
                    self.run_named(handler, nm);
                },
                None => {},
            }
        }
    }

    /// The blocking dispatch loop: receive each pending event in order
    /// and dispatch it; when the channel is exhausted — the producer is
    /// gone — request quit once and return.
    pub fn wait_for_message(&mut self)
        requires
            old(self).inv(),
        ensures
            final(self).inv(),
            final(self)@ == spec_run_loop(old(self)@, old(self).pending_events()),
            final(self).pending_events() == Seq::<u32>::empty(),
    {
        while self.events.len() > 0
            invariant
                self.inv(),
                spec_run_loop(self@, self.pending_events()) == spec_run_loop(
                    old(self)@,
                    old(self).pending_events(),
                ),
            decreases self.events@.len(),
        {
            let ghost v0 = self@;
            let ghost pe0 = self.pending_events();
            let ev = self.events.remove(0);
            proof {
                assert(self.pending_events() =~= pe0.drop_first());
                assert(self@ == v0);
            }
            self.dispatch_event(ev);
        }
        proof {
            assert(self.pending_events() =~= Seq::<u32>::empty());
        }
        self.quit();
    }

    /// As [`Application::wait_for_message`], and after each dispatched
    /// callback returns, the given handler runs with the clicked entry's
    /// display name.  Events without a registered callback never reach
    /// the handler.
    pub fn wait_for_message_callback(&mut self, handler: &NamedCallback)
        requires
            old(self).inv(),
        ensures
            final(self).inv(),
            final(self)@ == spec_run_loop_named(
                old(self)@,
                old(self).pending_events(),
                *handler,
            ),
            final(self).pending_events() == Seq::<u32>::empty(),
    {
        while self.events.len() > 0
            invariant
                self.inv(),
                spec_run_loop_named(self@, self.pending_events(), *handler) == spec_run_loop_named(
                    old(self)@,
                    old(self).pending_events(),
                    *handler,
                ),
            decreases self.events@.len(),
        {
            let ghost v0 = self@;
            let ghost pe0 = self.pending_events();
            let ev = self.events.remove(0);
            proof {
                assert(self.pending_events() =~= pe0.drop_first());
                assert(self@ == v0);
            }
            self.dispatch_event_named(ev, handler);
        }
        proof {
            assert(self.pending_events() =~= Seq::<u32>::empty());
        }
        self.quit();
    }

    /// The index the next addition will assign.
    pub fn next_menu_index(&self) -> (r: u32)
        ensures
            r == self@.menu_idx,
    {
        self.menu_idx
    }

    /// Whether a callback is registered for the given index.
    pub fn has_callback(&self, index: u32) -> (r: bool)
        ensures
            r == self@.callbacks.contains_key(index),
    {
        self.callback.contains_key(&index)
    }

    /// The index currently registered under the given display name.
    pub fn menu_index_of(&self, item_name: &String) -> (r: Option<u32>)
        requires
            self.inv(),
        ensures
            match r {
                Some(i) => self@.items.contains_key(item_name@) && i == self@.items[item_name@],
                None => !self@.items.contains_key(item_name@),
            },
    {
        let pos = items_find(&self.items, item_name);
        match pos {
            Some(p) => {
                proof {
                    lemma_items_map_entry(self.items@, p as int);
                }
                Some(self.items[p].1)
            },
            None => {
                proof {
                    lemma_items_map_absent(self.items@, item_name@);
                }
                None
            },
        }
    }

    /// The tooltip last forwarded to the window, if any.
    pub fn current_tooltip(&self) -> (r: Option<&String>)
        ensures
            r is Some <==> self@.tooltip is Some,
            r matches Some(t) ==> self@.tooltip == Some(*t),
    {
        match &self.window.tooltip {
            Some(t) => Some(t),
            None => None,
        }
    }

    /// Whether the native message loop has been asked to stop.
    pub fn is_quit_requested(&self) -> (r: bool)
        ensures
            r == self@.quit_requested,
    {
        self.window.quit_requested
    }

    /// Whether the window's native resources have been released.
    pub fn is_shut_down(&self) -> (r: bool)
        ensures
            r == self@.shut_down,
    {
        self.window.shut_down
    }
}

} // verus!
