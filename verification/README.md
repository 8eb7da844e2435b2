# soundtime

The logic of the SoundTime music server, written in Verus and proved
against its contracts: plugin manifests, permissions and sandbox limits, the
installation and update flows of plugins and themes, track uploads and
streaming, search, radio, editorial playlists, Last.fm signing and session
keys, moderation, administration and setup, and the plugin registry's
event dispatch over its WASM sandboxes.

Layout:

- `src/` — the verified library, one module per area (see each module's
  first lines). The flows (`plugin_flow`, `theme_flow`, `upload_flow`,
  `editorial_flow`) are state machines: the library decides each step, the
  caller performs the outside work (files, git, database, HTTP) and reports
  its outcome.
- `tests/` — tests run against the compiled library.
- `app/` — the code around the library: reading TOML manifests, WASM files
  and the environment, the directory walks, the drivers of the flows and of
  event dispatch, JSON exchanged with plugins, and the parts computed with
  floating-point numbers or the clock.
