# codexbar

The rules behind a tray application that shows how much of an AI coding subscription is used,
and that switches between several accounts of it.

- `src/` is the library. Every function in it is verified by Verus against its contract: which
  accounts are the same, which one is switched to, how replies are read, which login is
  renewed, what the menu and the tooltip show, which results of a refresh are kept.
- `tests/` runs the library on concrete values.
- `app/` is what surrounds it: files, processes, the network, and the shell that draws the tray.

Numbers that arrive as doubles are held in units of 2^-64: exactly from magnitude 2^-12 to 2^62,
cut off below and above (`src/quantity.rs`). Times are seconds and nanoseconds since 1970 (`src/moment.rs`). What other crates and `std` compute is
called in `src/outside.rs`, `src/json.rs` and `src/text.rs`; what is believed of those calls is
written there and not proved.
