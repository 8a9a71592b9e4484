use std::cell::Cell;
use std::rc::Rc;

use sysbar::{MenuAction, Sysbar};

type Callback = Box<dyn Fn()>;

fn run(bar: &Sysbar<Callback>, index: usize) -> &'static str {
    match bar.activate(index) {
        Some(MenuAction::Callback(cb)) => {
            cb();
            "callback"
        }
        Some(MenuAction::Quit) => "quit",
        None => "nothing",
    }
}

#[test]
fn new_bar_has_its_name_and_no_entries() {
    let mut bar: Sysbar<Callback> = Sysbar::new("Foo");
    let layout = bar.display();
    assert_eq!(layout.title, "Foo");
    assert!(layout.labels.is_empty());
    assert!(bar.activate(0).is_none());
}

#[test]
fn readme_example_menu() {
    let said = Rc::new(Cell::new(0u32));
    let mut bar: Sysbar<Callback> = Sysbar::new("Foo");
    let s = said.clone();
    bar.add_item("Say 'bar'", Box::new(move || s.set(s.get() + 1)));
    bar.add_quit_item("Quit");
    let layout = bar.display();
    assert_eq!(layout.title, "Foo");
    assert_eq!(layout.labels, vec!["Say 'bar'".to_string(), "Quit".to_string()]);
    assert_eq!(run(&bar, 0), "callback");
    assert_eq!(said.get(), 1);
    assert_eq!(run(&bar, 1), "quit");
    assert_eq!(run(&bar, 2), "nothing");
    assert_eq!(said.get(), 1);
}

#[test]
fn entries_keep_insertion_order() {
    let mut bar: Sysbar<u32> = Sysbar::new("Bar");
    bar.add_item("Prefs", 10);
    bar.add_quit_item("Quit");
    bar.add_item("Summon Herb", 20);
    let layout = bar.display();
    assert_eq!(layout.labels, vec!["Prefs".to_string(), "Quit".to_string(), "Summon Herb".to_string()]);
    assert!(matches!(bar.activate(0), Some(MenuAction::Callback(10))));
    assert!(matches!(bar.activate(1), Some(MenuAction::Quit)));
    assert!(matches!(bar.activate(2), Some(MenuAction::Callback(20))));
}

#[test]
fn activation_runs_the_callback_registered_with_the_entry() {
    let hits = Rc::new(Cell::new((0u32, 0u32)));
    let mut bar: Sysbar<Callback> = Sysbar::new("Foo");
    let h = hits.clone();
    bar.add_item("Prefs", Box::new(move || h.set((h.get().0 + 1, h.get().1))));
    let h = hits.clone();
    bar.add_item("Summon Herb", Box::new(move || h.set((h.get().0, h.get().1 + 1))));
    assert_eq!(run(&bar, 1), "callback");
    assert_eq!(hits.get(), (0, 1));
    assert_eq!(run(&bar, 0), "callback");
    assert_eq!(run(&bar, 0), "callback");
    assert_eq!(hits.get(), (2, 1));
}

#[test]
fn adding_keeps_earlier_activations() {
    let mut bar: Sysbar<u32> = Sysbar::new("Foo");
    bar.add_item("A", 1);
    assert!(matches!(bar.activate(0), Some(MenuAction::Callback(1))));
    bar.add_quit_item("Quit");
    bar.add_item("B", 2);
    assert!(matches!(bar.activate(0), Some(MenuAction::Callback(1))));
    assert!(matches!(bar.activate(2), Some(MenuAction::Callback(2))));
}

#[test]
fn indices_past_the_menu_activate_nothing() {
    let mut bar: Sysbar<u32> = Sysbar::new("Foo");
    bar.add_quit_item("Quit");
    assert!(bar.activate(1).is_none());
    assert!(bar.activate(usize::MAX).is_none());
}

#[test]
fn display_leaves_the_menu_unchanged() {
    let mut bar: Sysbar<u32> = Sysbar::new("Foo");
    bar.add_item("A", 5);
    let first = bar.display();
    let second = bar.display();
    assert_eq!(first.title, second.title);
    assert_eq!(first.labels, second.labels);
    assert!(matches!(bar.activate(0), Some(MenuAction::Callback(5))));
}

#[test]
fn labels_are_copied_verbatim() {
    let mut bar: Sysbar<u32> = Sysbar::new("");
    bar.add_item("", 0);
    bar.add_quit_item("Quitter ✓");
    let layout = bar.display();
    assert_eq!(layout.title, "");
    assert_eq!(layout.labels, vec!["".to_string(), "Quitter ✓".to_string()]);
}
