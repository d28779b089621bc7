# clippy_core

The verified decision logic of Clippy's paste-on-select feature.

- `src/` — the library, verified with Verus: the shared enums and their stored
  names (`enums`), the clipboard-type JSON codec, the text an entry offers
  (`clipboard`), the target-window record (`target_window`), the focus and
  modifier waits (`focus`), the paste sequence and paste chord (`paste`), the
  command-line input tools (`input_tools`), and the settings migration
  (`migration`). Step functions take the results of outside work as events
  and return the next action.
- `app/` — the I/O around it: the serde and sea-orm copies of the enums, the
  `serde_json` conversion, the migration run by `sea-orm-migration`, the X11
  queries, the keyboard through `enigo`, the clock and sleeps through `tokio`,
  and the spawning of input tools.
- `tests/` — tests of the library on concrete values.
