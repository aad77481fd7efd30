# toot

A Mastodon client whose application logic is a Verus-verified library.

The library (`src/`) holds the client's state and decisions: navigation,
dialogs and the context drawer, the login and account-switching flow, the
per-page state machines (timelines, notifications, hashtags, lists,
search), the content cache, the compose dialog's rules, what a status view
shows, and the layout of the on-disk cache. Every public function states
its behaviour in `requires`/`ensures` and Verus proves it. The application
never performs I/O itself: `AppModel::update` and the page `update`
functions return `Effect`s (requests, image downloads, keychain writes,
...) that the program around the library carries out, feeding the
outcome back as messages.

Calls into other crates that only compute (HTML rendering with
`html2text`, capitalization, `std` string and hashing primitives) go
through small trusted wrappers in `render.rs`, `text.rs`,
`persistence.rs` and `entities.rs`, whose contracts name or state what the
call returns.

Layout:

- `src/app.rs` — pages, dialogs, messages, effects and `AppModel`.
- `src/features/` — one module per page or view.
- `src/cache.rs`, `src/store.rs` — fetched content keyed by id.
- `src/client.rs` — the active client and the saved sessions.
- `src/config.rs` — preferences.
- `src/persistence.rs` — cache paths, snapshot bounds and pruning.
- `src/text.rs`, `src/render.rs` — string helpers and text rendering.
- `tests/` — tests of the library on concrete values.
- `app/` — a command-line program that drives the library: it talks to
  the instance through `megalodon`, keeps accounts in the keychain and
  preferences and images on disk.
