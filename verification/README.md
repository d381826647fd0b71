# pim_tomato

The decision logic of the PIM Tomato menu-bar shell, verified with Verus.

- `src/text.rs`: the menu-bar countdown format (`fmt_tray`), the cleaning of
  sound names, the path of a reminder's sound, and the choice of addresses for
  opening an external link.
- `src/shell.rs`: the shell's state and, for each event the app receives, the
  new state and the list of window, tray and sound operations to perform. Each
  method's contract equals a spec function that models the event.
- `src/payload.rs`: reading the JSON messages (through `serde_json`) and
  handing their fields to the shell; a message that is not JSON changes
  nothing.
- `src/laws.rs`: properties that span events, proved over that model.
- `app/lib.rs`: the Tauri program that reads events, asks the library, and
  performs the operations.
