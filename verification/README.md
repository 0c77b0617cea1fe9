# cipollino_client

The decision logic of the Cipollino animation editor's client, verified with Verus.

- `src/` is the library. Each module holds one part of the editor's behaviour with its
  contracts: the splash screen (`splash`, `recents`, `paths`, `collab`), the timeline
  (`frame_order`, `frame_selection`, `framebar`, `header`, `layers`, `rename`, `properties`,
  `decimal`), the assets panel (`assets`, `names`), the panels (`panels`), the scene canvas
  (`canvas`) and what the scene draws (`scene`, `render`). `text` and `id_set` are shared helpers.
- `tests/` runs the library on concrete values.
- `app/` is a small command-line front end: it reads and writes the recents file, asks the
  operating system for folders and dialogs, and hands plain values to the library.

The windowing, painting and project-database layers of the editor are not part of this crate.
