# jeliya_ui

The renderer-free core of the Jeliya user interface, written in Verus: every
decision the shell makes about rooms, files, pipes, agents, preferences and
localized copy is an executable function with a contract, and the promises the
shell makes across calls are proof functions.

## Layout

| Path | What |
|---|---|
| `src/api.rs`, `src/client.rs`, `src/platform.rs` | The daemon protocol, client and platform vocabularies as plain values |
| `src/room/` | Run folding, the render projection, the historical roster, the archive fold, capability gates, the send pipeline, reconciliation, scroll |
| `src/files/` | Size preflight, preview policy, failure classification, progress, the file list, and the upload and fetch state machines |
| `src/pipes/` | The pipe list, the loopback publish policy, how pipe mutations settle |
| `src/view/` | Fleet, agents, invites, roster and alias folds, load and poll state |
| `src/prefs/` | The versioned preference schema over a key/value backend |
| `src/l10n/` | Locales, catalogs, number formatting, palette, error display and secret scrubbing |
| `src/shell/` | Boot derivation, the router's decisions, the offline fixtures |
| `src/components.rs`, `src/components/` | What each component shows, before markup |
| `app/` | The runtime around the core: shared services, floating-point layout and formatting, address parsing, the send namespace sequence, scroll measurements |
| `tests/` | Scenario tests of the library |
