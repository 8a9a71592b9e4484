//! The status bar itself.
use vstd::prelude::*;

use crate::menu::{EntryView, Layout, MenuAction, SysbarView};

verus! {

/// A menu entry as the bar stores it.
struct MenuEntry<C> {
    label: String,
    action: MenuAction<C>,
}

impl<C> MenuEntry<C> {
    spec fn entry_view(self) -> EntryView<C> {
        EntryView { label: self.label@, action: self.action }
    }
}

/// A status bar with a name and a menu. `C` is the type of the callbacks
/// that menu entries run; the platform side calls them.
pub struct Sysbar<C> {
    name: String,
    entries: Vec<MenuEntry<C>>,
}

impl<C> View for Sysbar<C> {
    type V = SysbarView<C>;

    closed spec fn view(&self) -> SysbarView<C> {
        SysbarView {
            name: self.name@,
            entries: self.entries@.map_values(|e: MenuEntry<C>| e.entry_view()),
        }
    }
}

impl<C> Sysbar<C> {
    /// A bar named `name` with an empty menu.
    pub fn new(name: &str) -> (bar: Self)
        ensures
            bar@ == SysbarView::<C>::empty(name@),
            bar@.name == name@,
            bar@.entries.len() == 0,
    {
        let bar = Sysbar { name: name.to_owned(), entries: Vec::new() };
        assert(bar@.entries =~= Seq::<EntryView<C>>::empty());
        bar
    }

    /// Appends an entry labelled `label` that runs `cbs` when activated.
    pub fn add_item(&mut self, label: &str, cbs: C)
        ensures
            final(self)@ == old(self)@.with_entry(label@, MenuAction::Callback(cbs)),
            final(self)@.name == old(self)@.name,
            final(self)@.entries == old(self)@.entries.push(
                EntryView { label: label@, action: MenuAction::Callback(cbs) },
            ),
    {
        self.push_entry(MenuEntry { label: label.to_owned(), action: MenuAction::Callback(cbs) });
    }

    /// Appends an entry labelled `label` that quits the application when
    /// activated.
    pub fn add_quit_item(&mut self, label: &str)
        ensures
            final(self)@ == old(self)@.with_entry(label@, MenuAction::Quit),
            final(self)@.name == old(self)@.name,
            final(self)@.entries == old(self)@.entries.push(
                EntryView { label: label@, action: MenuAction::Quit },
            ),
    {
        self.push_entry(MenuEntry { label: label.to_owned(), action: MenuAction::Quit });
    }

    /// What the tray shows: the bar's name as its title, and the labels of
    /// the entries in menu order. The menu itself is left as it was.
    pub fn display(&mut self) -> (layout: Layout)
        ensures
            *final(self) == *old(self),
            layout.title@ == old(self)@.name,
            layout.labels@.len() == old(self)@.entries.len(),
            forall|i: int|
                0 <= i < layout.labels@.len() ==> #[trigger] layout.labels@[i]@
                    == old(self)@.entries[i].label,
    {
        let title = self.name.clone();
        let mut labels: Vec<String> = Vec::new();
        let n = self.entries.len();
        for i in 0..n
            invariant
                n == self.entries@.len(),
                labels@.len() == i,
                forall|j: int| 0 <= j < i ==> #[trigger] labels@[j]@ == self.entries@[j].label@,
        {
            labels.push(self.entries[i].label.clone());
        }
        Layout { title, labels }
    }

    /// What a click on the entry at `index` does: its action, or `None`
    /// where no entry stands at that index.
    pub fn activate(&self, index: usize) -> (action: Option<&MenuAction<C>>)
        ensures
            match self@.activation(index as int) {
                Some(a) => action == Some(&a),
                None => action is None,
            },
            index < self@.entries.len() ==> action == Some(&self@.entries[index as int].action),
            index >= self@.entries.len() ==> action is None,
    {
        if index < self.entries.len() {
            Some(&self.entries[index].action)
        } else {
            None
        }
    }

    fn push_entry(&mut self, entry: MenuEntry<C>)
        ensures
            final(self)@ == old(self)@.with_entry(entry.label@, entry.action),
            final(self)@.name == old(self)@.name,
            final(self)@.entries == old(self)@.entries.push(entry.entry_view()),
    {
        self.entries.push(entry);
        assert(final(self)@.entries =~= old(self)@.entries.push(entry.entry_view()));
    }
}

} // verus!
