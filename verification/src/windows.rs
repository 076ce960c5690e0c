use vstd::prelude::*;
use crate::error::{ErrorView, NuhxBoardError};
use crate::popups::Action;
use std::collections::HashMap;
use vstd::std_specs::iter::IteratorSpec;

verus! {

broadcast use vstd::std_specs::hash::group_hash_axioms;

/// The main window, showing the keyboard.
#[derive(PartialEq, Eq, Structural, Clone, Copy, Debug)]
pub struct Main;

/// The window for choosing a category, layout and style.
#[derive(PartialEq, Eq, Structural, Clone, Copy, Debug)]
pub struct LoadKeyboard;

/// The settings window.
#[derive(PartialEq, Eq, Structural, Clone, Copy, Debug)]
pub struct SettingsWindow;

/// The layout's properties (its size).
#[derive(PartialEq, Eq, Structural, Clone, Copy, Debug)]
pub struct KeyboardProperties;

/// Saving the layout under another category or name.
#[derive(PartialEq, Eq, Structural, Clone, Copy, Debug)]
pub struct SaveDefinitionAs;

/// Saving the style under another name.
#[derive(PartialEq, Eq, Structural, Clone, Copy, Debug)]
pub struct SaveStyleAs;

/// The layout-wide default style.
#[derive(PartialEq, Eq, Structural, Clone, Copy, Debug)]
pub struct KeyboardStyle;

/// The properties of the element at `index`.
#[derive(PartialEq, Eq, Structural, Clone, Copy, Debug)]
pub struct ElementProperties {
    pub index: usize,
}

/// Turning the element at `index` into a rectangle.
#[derive(PartialEq, Eq, Structural, Clone, Copy, Debug)]
pub struct RectangleDialog {
    pub index: usize,
}

/// The style of the element with id `id`.
#[derive(PartialEq, Eq, Structural, Clone, Copy, Debug)]
pub struct ElementStyle {
    pub id: u32,
}

/// Asks whether unsaved changes may be discarded before an action.
#[derive(PartialEq, Eq, Structural, Clone, Copy, Debug)]
pub struct UnsavedChangesPopup(pub Action);

/// Shows an error.
pub struct ErrorPopup {
    pub error: NuhxBoardError,
}

/// Every kind of window the application opens, with the data that tells two windows of one
/// kind apart.
pub enum AppWindow {
    Main(Main),
    LoadKeyboard(LoadKeyboard),
    SettingsWindow(SettingsWindow),
    KeyboardProperties(KeyboardProperties),
    SaveDefinitionAs(SaveDefinitionAs),
    SaveStyleAs(SaveStyleAs),
    KeyboardStyle(KeyboardStyle),
    ElementProperties(ElementProperties),
    RectangleDialog(RectangleDialog),
    ElementStyle(ElementStyle),
    UnsavedChangesPopup(UnsavedChangesPopup),
    ErrorPopup(ErrorPopup),
}

/// Model of a window: its identity. Two windows are the same window exactly when their
/// models are equal.
pub enum WindowId {
    Main,
    LoadKeyboard,
    SettingsWindow,
    KeyboardProperties,
    SaveDefinitionAs,
    SaveStyleAs,
    KeyboardStyle,
    ElementProperties(usize),
    RectangleDialog(usize),
    ElementStyle(u32),
    UnsavedChangesPopup(Action),
    ErrorPopup(ErrorView),
}

impl View for AppWindow {
    type V = WindowId;

    open spec fn view(&self) -> WindowId {
        match self {
            AppWindow::Main(_) => WindowId::Main,
            AppWindow::LoadKeyboard(_) => WindowId::LoadKeyboard,
            AppWindow::SettingsWindow(_) => WindowId::SettingsWindow,
            AppWindow::KeyboardProperties(_) => WindowId::KeyboardProperties,
            AppWindow::SaveDefinitionAs(_) => WindowId::SaveDefinitionAs,
            AppWindow::SaveStyleAs(_) => WindowId::SaveStyleAs,
            AppWindow::KeyboardStyle(_) => WindowId::KeyboardStyle,
            AppWindow::ElementProperties(w) => WindowId::ElementProperties(w.index),
            AppWindow::RectangleDialog(w) => WindowId::RectangleDialog(w.index),
            AppWindow::ElementStyle(w) => WindowId::ElementStyle(w.id),
            AppWindow::UnsavedChangesPopup(w) => WindowId::UnsavedChangesPopup(w.0),
            AppWindow::ErrorPopup(w) => WindowId::ErrorPopup(w.error@),
        }
    }
}

impl AppWindow {
    /// Whether two windows are the same window (same kind and same data).
    pub fn same(&self, other: &AppWindow) -> (r: bool)
        ensures
            r == (self@ == other@),
    {
        match (self, other) {
            (AppWindow::Main(_), AppWindow::Main(_)) => true,
            (AppWindow::LoadKeyboard(_), AppWindow::LoadKeyboard(_)) => true,
            (AppWindow::SettingsWindow(_), AppWindow::SettingsWindow(_)) => true,
            (AppWindow::KeyboardProperties(_), AppWindow::KeyboardProperties(_)) => true,
            (AppWindow::SaveDefinitionAs(_), AppWindow::SaveDefinitionAs(_)) => true,
            (AppWindow::SaveStyleAs(_), AppWindow::SaveStyleAs(_)) => true,
            (AppWindow::KeyboardStyle(_), AppWindow::KeyboardStyle(_)) => true,
            (AppWindow::ElementProperties(a), AppWindow::ElementProperties(b)) => a.index
                == b.index,
            (AppWindow::RectangleDialog(a), AppWindow::RectangleDialog(b)) => a.index == b.index,
            (AppWindow::ElementStyle(a), AppWindow::ElementStyle(b)) => a.id == b.id,
            (AppWindow::UnsavedChangesPopup(a), AppWindow::UnsavedChangesPopup(b)) => a.0 == b.0,
            (AppWindow::ErrorPopup(a), AppWindow::ErrorPopup(b)) => a.error.same(&b.error),
            _ => false,
        }
    }

    /// A copy of the window.
    pub fn duplicate(&self) -> (w: AppWindow)
        ensures
            w@ == self@,
    {
        match self {
            AppWindow::Main(w) => AppWindow::Main(*w),
            AppWindow::LoadKeyboard(w) => AppWindow::LoadKeyboard(*w),
            AppWindow::SettingsWindow(w) => AppWindow::SettingsWindow(*w),
            AppWindow::KeyboardProperties(w) => AppWindow::KeyboardProperties(*w),
            AppWindow::SaveDefinitionAs(w) => AppWindow::SaveDefinitionAs(*w),
            AppWindow::SaveStyleAs(w) => AppWindow::SaveStyleAs(*w),
            AppWindow::KeyboardStyle(w) => AppWindow::KeyboardStyle(*w),
            AppWindow::ElementProperties(w) => AppWindow::ElementProperties(*w),
            AppWindow::RectangleDialog(w) => AppWindow::RectangleDialog(*w),
            AppWindow::ElementStyle(w) => AppWindow::ElementStyle(*w),
            AppWindow::UnsavedChangesPopup(w) => AppWindow::UnsavedChangesPopup(*w),
            AppWindow::ErrorPopup(w) => AppWindow::ErrorPopup(
                ErrorPopup { error: w.error.duplicate() },
            ),
        }
    }
}

/// Tracks the open windows by id. Ids are handed out by the manager, never reused.
pub struct WindowManager {
    windows: HashMap<u64, AppWindow>,
    next_id: u64,
}

/// Model of the window manager: the open windows by id, and the next id to hand out.
pub struct WindowsView {
    pub windows: Map<u64, WindowId>,
    pub next_id: u64,
}

impl WindowsView {
    /// Every open window has an id below the next one to be handed out.
    pub open spec fn wf(self) -> bool {
        forall|id: u64| self.windows.contains_key(id) ==> id < self.next_id
    }

    /// The ids of the open windows that are the given window.
    pub open spec fn instances(self, window: WindowId) -> Set<u64> {
        Set::new(|id: u64| self.windows.contains_key(id) && self.windows[id] == window)
    }

    pub open spec fn any_of(self, window: WindowId) -> bool {
        exists|id: u64| self.windows.contains_key(id) && self.windows[id] == window
    }
}

impl View for WindowManager {
    type V = WindowsView;

    closed spec fn view(&self) -> WindowsView {
        WindowsView {
            windows: self.windows@.map_values(|w: AppWindow| w@),
            next_id: self.next_id,
        }
    }
}

impl WindowManager {
    /// A manager with no open window.
    pub fn new() -> (m: WindowManager)
        ensures
            m@.windows == Map::<u64, WindowId>::empty(),
            m@.next_id == 0,
            m@.wf(),
    {
        let m = WindowManager { windows: HashMap::new(), next_id: 0 };
        assert(m@.windows =~= Map::<u64, WindowId>::empty());
        m
    }

    /// Registers a new window and returns its id.
    pub fn open(&mut self, window: AppWindow) -> (id: u64)
        requires
            old(self)@.wf(),
            old(self)@.next_id < u64::MAX,
        ensures
            id == old(self)@.next_id,
            !old(self)@.windows.contains_key(id),
            final(self)@.windows == old(self)@.windows.insert(id, window@),
            final(self)@.next_id == id + 1,
            final(self)@.wf(),
    {
        let id = self.next_id;
        let ghost w = window@;
        self.windows.insert(id, window);
        self.next_id = id + 1;
        assert(self@.windows =~= old(self)@.windows.insert(id, w));
        id
    }

    /// Updates the manager to reflect that the window with this id was closed.
    pub fn was_closed(&mut self, id: u64)
        requires
            old(self)@.wf(),
        ensures
            final(self)@.windows == old(self)@.windows.remove(id),
            final(self)@.next_id == old(self)@.next_id,
            final(self)@.wf(),
    {
        self.windows.remove(&id);
        assert(self@.windows =~= old(self)@.windows.remove(id));
    }

    /// Whether another window can be given an id.
    pub fn can_open(&self) -> (r: bool)
        ensures
            r == (self@.next_id < u64::MAX),
    {
        self.next_id < u64::MAX
    }

    /// Whether no window is open.
    pub fn empty(&self) -> (r: bool)
        ensures
            r == self@.windows.is_empty(),
    {
        let r = self.windows.is_empty();
        proof {
            if !r {
                let id = self.windows@.dom().choose();
                assert(self@.windows.contains_key(id));
            } else {
                assert(self@.windows.dom() =~= Set::<u64>::empty());
            }
        }
        r
    }

    /// The window with the given id.
    pub fn get(&self, id: u64) -> (w: &AppWindow)
        requires
            self@.windows.contains_key(id),
        ensures
            w@ == self@.windows[id],
    {
        self.windows.get(&id).unwrap()
    }

    /// The ids of all open windows.
    pub fn all_ids(&self) -> (ids: Vec<u64>)
        ensures
            ids@.to_set() == self@.windows.dom(),
            ids@.no_duplicates(),
    {
        let mut ids: Vec<u64> = Vec::new();
        for id in it: self.windows.keys()
            invariant
                ids.len() == it.index(),
                forall|i: int| 0 <= i < ids.len() ==> ids@[i] == *it.seq()[i],
        {
            ids.push(*id);
        }
        proof {
            let keys = vstd::std_specs::hash::spec_keys_iter(&self.windows).remaining();
            assert(ids@ =~= keys.unref());
            assert(ids@.to_set() =~= self@.windows.dom());
        }
        ids
    }

    /// The ids of the open windows that are the given window.
    pub fn instances_of(&self, window: &AppWindow) -> (ids: Vec<u64>)
        ensures
            ids@.to_set() == self@.instances(window@),
            ids@.no_duplicates(),
    {
        let all = self.all_ids();
        let mut ids: Vec<u64> = Vec::new();
        let mut i: usize = 0;
        while i < all.len()
            invariant
                0 <= i <= all.len(),
                all@.to_set() == self@.windows.dom(),
                all@.no_duplicates(),
                ids@.no_duplicates(),
                forall|k: u64|
                    ids@.contains(k) <==> (exists|m: int| 0 <= m < i && all@[m] == k)
                        && self@.windows[k] == window@,
            decreases all.len() - i,
        {
            let id = all[i];
            assert(all@.to_set().contains(id));
            let w = self.get(id);
            if w.same(window) {
                proof {
                    assert forall|k: u64| ids@.contains(k) implies k != id by {
                        let m = choose|m: int| 0 <= m < i && all@[m] == k;
                        assert(all@[m] != all@[i as int]);
                    }
                }
                let ghost prev = ids@;
                ids.push(id);
                proof {
                    assert forall|a: int, b: int|
                        0 <= a < ids@.len() && 0 <= b < ids@.len() && a != b implies ids@[a]
                        != ids@[b] by {
                        if a == prev.len() {
                            assert(prev.contains(ids@[b]));
                        } else if b == prev.len() {
                            assert(prev.contains(ids@[a]));
                        }
                    }
                    assert forall|k: u64| ids@.contains(k) <==> (exists|m: int|
                        0 <= m < i + 1 && all@[m] == k) && self@.windows[k] == window@ by {
                        if k == id {
                            assert(ids@[ids@.len() - 1] == k);
                        }
                        if ids@.contains(k) && k != id {
                            let n = choose|n: int| 0 <= n < ids@.len() && ids@[n] == k;
                            assert(prev[n] == k);
                            assert(prev.contains(k));
                        }
                        if (exists|m: int| 0 <= m < i + 1 && all@[m] == k) && self@.windows[k] == window@ && k != id {
                            let m = choose|m: int| 0 <= m < i + 1 && all@[m] == k;
                            assert(m < i);
                            assert(prev.contains(k));
                            let n = choose|n: int| 0 <= n < prev.len() && prev[n] == k;
                            assert(ids@[n] == k);
                        }
                    }
                }
            }
            i = i + 1;
        }
        proof {
            assert forall|k: u64| ids@.to_set().contains(k) <==> self@.instances(window@).contains(k) by {
                if self@.instances(window@).contains(k) {
                    assert(all@.to_set().contains(k));
                    let m = choose|m: int| 0 <= m < all@.len() && all@[m] == k;
                }
            }
            assert(ids@.to_set() =~= self@.instances(window@));
        }
        ids
    }

    /// Whether some open window is the given window.
    pub fn any_of(&self, window: &AppWindow) -> (r: bool)
        ensures
            r == self@.any_of(window@),
    {
        let ids = self.instances_of(window);
        proof {
            if ids.len() > 0 {
                assert(ids@.to_set().contains(ids@[0]));
            } else if self@.any_of(window@) {
                let k = choose|k: u64| self@.windows.contains_key(k) && self@.windows[k] == window@;
                assert(self@.instances(window@).contains(k));
                assert(ids@.to_set().contains(k));
            }
        }
        ids.len() > 0
    }

    /// The ids of the windows to close so that all windows are closed.
    pub fn close_all(&self) -> (ids: Vec<u64>)
        ensures
            ids@.to_set() == self@.windows.dom(),
            ids@.no_duplicates(),
    {
        self.all_ids()
    }

    /// The ids of the windows to close so that no window that is the given window stays open.
    pub fn close_all_of(&self, window: &AppWindow) -> (ids: Vec<u64>)
        ensures
            ids@.to_set() == self@.instances(window@),
            ids@.no_duplicates(),
    {
        self.instances_of(window)
    }
}

/// Law: a window just opened is open, under the id it was given.
pub proof fn lemma_opened_window_is_open(v: WindowsView, window: WindowId)
    requires
        v.wf(),
    ensures
        ({
            let after = WindowsView {
                windows: v.windows.insert(v.next_id, window),
                next_id: (v.next_id + 1) as u64,
            };
            after.any_of(window) && after.instances(window).contains(v.next_id)
        }),
{
    let after = WindowsView {
        windows: v.windows.insert(v.next_id, window),
        next_id: (v.next_id + 1) as u64,
    };
    assert(after.windows.contains_key(v.next_id) && after.windows[v.next_id] == window);
}

/// Law: a window reported closed is no longer open, and the other windows stay.
pub proof fn lemma_closed_window_is_gone(v: WindowsView, id: u64, other: u64)
    requires
        other != id,
    ensures
        !v.windows.remove(id).contains_key(id),
        v.windows.remove(id).contains_key(other) == v.windows.contains_key(other),
{
}

} // verus!
