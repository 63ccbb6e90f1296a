# waybuilder

A Pathfinder 2e character builder for the terminal. The build rules, the character
derivation, the key handling of every screen and dialog, saved-file naming and the
Pathbuilder export are a library verified with Verus; the terminal front end, the
file system and the rules database are a thin program around it.

## Layout

- `src/` — the verified library.
  - `build/` — the player's choices, the derived character (`recalculate`), the
    progression of level slots, and the rules read from class, ancestry, background,
    deity and equipment documents.
  - `model/` — abilities, proficiencies, equipment, feats and spells.
  - `document.rs`, `scan.rs`, `text.rs` — rules documents as plain values, and the
    text scanning the rules readers use.
  - `ui/` — application state, every key handler (`events.rs`), the dialogs
    (`modal/`), the lines each panel shows (`sheet.rs`) and the layout of rendered
    rules text (`markup.rs`).
  - `persistence/` — file names for saved builds and the Pathbuilder JSON export.
- `app/` — the program: terminal drawing, the event loop, reading and writing files,
  and the rules database client.
- `tests/` — tests of the library.

Each public function states what it returns in its contract; the properties that
relate several operations (what a key press keeps, what an insert makes a lookup
return, what undoes what) are public proof functions beside the code they speak of.
