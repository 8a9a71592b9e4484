//! The menu model: entries, their abstract views, and the laws that relate
//! adding an entry to activating one.
use vstd::prelude::*;

verus! {

/// What happens when a menu entry is activated.
pub enum MenuAction<C> {
    /// Run the callback that was registered with the entry.
    Callback(C),
    /// Quit the application.
    Quit,
}

/// The abstract value of a menu entry: its label and its action.
pub struct EntryView<C> {
    pub label: Seq<char>,
    pub action: MenuAction<C>,
}

/// The abstract value of a status bar: its name and its entries, in the
/// order in which they were added.
pub struct SysbarView<C> {
    pub name: Seq<char>,
    pub entries: Seq<EntryView<C>>,
}

impl<C> SysbarView<C> {
    /// A bar with the given name and no entries.
    pub open spec fn empty(name: Seq<char>) -> SysbarView<C> {
        SysbarView { name, entries: Seq::empty() }
    }

    /// The bar with one more entry at the end of its menu.
    pub open spec fn with_entry(self, label: Seq<char>, action: MenuAction<C>) -> SysbarView<C> {
        SysbarView { name: self.name, entries: self.entries.push(EntryView { label, action }) }
    }

    /// What activating the entry at `index` does: the entry's action, or
    /// nothing where no entry stands at that index.
    pub open spec fn activation(self, index: int) -> Option<MenuAction<C>> {
        if 0 <= index < self.entries.len() {
            Some(self.entries[index].action)
        } else {
            None
        }
    }
}

/// What the tray shows: its title and the labels of its entries, in menu
/// order. The entry at position `i` of `labels` is activated by index `i`.
pub struct Layout {
    pub title: String,
    pub labels: Vec<String>,
}

/// An entry that was just added is the one that its index activates: the
/// index it gets is the number of entries before it, and activating that
/// index yields the action it was added with.
pub proof fn lemma_added_entry_activates<C>(v: SysbarView<C>, label: Seq<char>, action: MenuAction<C>)
    ensures
        v.with_entry(label, action).activation(v.entries.len() as int) == Some(action),
        v.with_entry(label, action).entries.len() == v.entries.len() + 1,
{
}

/// Adding an entry changes neither the bar's name nor what any earlier
/// index activates.
pub proof fn lemma_add_keeps_earlier<C>(
    v: SysbarView<C>,
    label: Seq<char>,
    action: MenuAction<C>,
    index: int,
)
    requires
        0 <= index < v.entries.len(),
    ensures
        v.with_entry(label, action).activation(index) == v.activation(index),
        v.with_entry(label, action).name == v.name,
{
}

/// A new bar carries exactly the name it was given, and its menu is empty.
pub proof fn lemma_empty_bar<C>(name: Seq<char>)
    ensures
        SysbarView::<C>::empty(name).name == name,
        SysbarView::<C>::empty(name).entries.len() == 0,
{
}

/// Adding an entry, whatever the bar holds already, keeps the bar's name and
/// every earlier entry as they were, and puts exactly one entry at the end,
/// carrying exactly the label and the action it was added with.
pub proof fn lemma_add_appends_exactly<C>(v: SysbarView<C>, label: Seq<char>, action: MenuAction<C>)
    ensures
        v.with_entry(label, action).name == v.name,
        v.with_entry(label, action).entries.len() == v.entries.len() + 1,
        forall|i: int|
            0 <= i < v.entries.len() ==> #[trigger] v.with_entry(label, action).entries[i]
                == v.entries[i],
        v.with_entry(label, action).entries[v.entries.len() as int].label == label,
        v.with_entry(label, action).entries[v.entries.len() as int].action == action,
        v.with_entry(label, action).entries == v.entries.push(EntryView { label, action }),
{
}

/// Activating an index gives the action of the entry standing there, and
/// nothing where no entry stands.
pub proof fn lemma_activation_is_entry_action<C>(v: SysbarView<C>, index: int)
    ensures
        0 <= index < v.entries.len() ==> v.activation(index) == Some(v.entries[index].action),
        !(0 <= index < v.entries.len()) ==> v.activation(index) is None,
{
}

/// Indices past the end of the menu activate nothing.
pub proof fn lemma_out_of_range_activates_nothing<C>(v: SysbarView<C>, index: int)
    requires
        index < 0 || index >= v.entries.len(),
    ensures
        v.activation(index) is None,
{
}

} // verus!
