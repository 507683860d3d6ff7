# cedilla core

The verified core of the Cedilla markdown editor.

- `src/vim.rs` — the Vim key-binding layer as a state machine: `step` states,
  for every state and key press, the next state and the binding the editor
  applies; `handle_vim_key_press` is proved to follow it.
- `src/vim_laws.rs` — properties of the Vim layer across all key presses.
- `src/editor.rs` — key presses, motions, bindings and messages as plain values.
- `src/images.rs` — clipboard text scanning, file naming, image link
  resolution, SVG detection and downloads in progress; the disk and the
  network stay with the caller, which answers the questions a
  `ClipboardScan` asks.
- `src/image_laws.rs` — properties of image naming and downloads.
- `src/text.rs` — character-level text operations.
- `src/paths.rs`, `src/urls.rs`, `src/raster.rs` — `std::path`, `url`,
  `percent-encoding` and `image`, behind contracts.
- `app/` — the widget, disk, clipboard and network side.
