# sysbar

A status-bar (tray) menu with verified contracts.

- `src/menu.rs`: the menu's abstract model (`SysbarView`, `EntryView`,
  `MenuAction`), the `Layout` that the tray shows, and the laws relating
  adding an entry to activating one.
- `src/sysbar.rs`: `Sysbar<C>`: `new`, `add_item`, `add_quit_item`,
  `display` (what the tray shows) and `activate` (what a click does).
- `app/`: the platform side (ksni on Linux, Cocoa on macOS) that draws the
  tray, runs the event loop and runs the action that `activate` returns.

```rust
let mut bar: sysbar::Sysbar<Box<dyn Fn()>> = sysbar::Sysbar::new("Foo");
bar.add_item("Say 'bar'", Box::new(move || println!("bar")));
bar.add_quit_item("Quit");
```
