# clipsync

The logic of ClipSync, a Tauri desktop application that syncs the clipboard,
written in Verus.

- `src/` is the verified library: the greeting command, the tray menu and
  window decisions of the desktop shell (and of the starter shell), the connection panel's state, and the code generation of the
  `#[command]` and `#[invoke]` attribute macros: the annotated item's source
  text is read with `syn` (one call per piece of syntax, behind small trusted
  wrappers) into plain models, and the generated code is written as text.
- `app/` holds what talks to the outside: the Tauri shells, the Leptos page,
  and the macro entry points, which print the compiler's tokens as text and
  turn the library's generated text back into tokens.
- `tests/` runs the library on concrete values.
