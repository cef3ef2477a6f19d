# spatial_browser

A file browser that shows a directory as a curved deck of cards in 3D.

- `src/` is the verified library: the browser's state and how each user
  action and each filesystem answer changes it (`state`), navigation history
  (`navigation`), selection (`selection`), stable sorting (`sort`), search
  (`search`), palettes (`theme`), the key map and the requests exchanged with
  the filesystem worker (`actions`), directory entries (`entries`), path
  operations (`paths`), texts shown around the deck (`ui`) and text helpers
  (`strings`). Contracts are stated over sequences of characters and entries;
  laws that span several calls are public proof functions.
- `app/` is the program around it: the window and input (winit), the
  filesystem worker thread, disk operations, opening files, and the
  floating-point scene, layout and GPU rendering.
- `tests/` exercise the library on concrete values.
