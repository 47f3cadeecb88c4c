# remote_desktop

Typing text into a Wayland session through the XDG RemoteDesktop portal, with
the decisions verified by Verus.

- `src/` is the verified library:
  - `keysym` maps characters to X11 keysyms;
  - `digits` writes decimal and hexadecimal numerals;
  - `keystrokes` plans the key events that type a text (plain taps for ASCII,
    the Ctrl+Shift+U sequence for everything else);
  - `normalize` puts text in Unicode Normalization Form C (through the
    `unicode_normalization` crate);
  - `messages` builds the error messages of portal failures;
  - `authorization` is the state machine of the portal grant: the restore
    token in memory and in the settings, the authorization flag and its change
    event, the permission store checks, and the gates of each public operation;
  - `laws` states and proves what holds of every state and every text.
- `app/` holds the global state behind a lock and performs what the library
  asks for: D-Bus calls to the portal and the permission store, blocking on
  them with Tokio, the settings file and the Tauri event.
- `tests/` runs the library on concrete values.
