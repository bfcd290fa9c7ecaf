# daymatter_astrobox_v2_plugin

An AstroBox plugin that manages the countdown-day ("倒数日") events of the
band's quick app: add an event, fetch the band's list, change or delete an
event, with form validation and a message banner.

Layout:

- `src/` — the library, verified with Verus.
  - `date.rs` — leap years, the `YYYY-MM-DD` form check, the civil date for a
    day count since 1970-01-01, and today's date text.
  - `text.rs` — decimal numbers as text (both ways) and string helpers.
  - `json.rs` — JSON values as the library reads them.
  - `state.rs` — the form state, its view, the banner.
  - `events.rs` — what each UI event does to the state, and the event list
    sent back by the band.
  - `flow.rs` — sending a request to the band app, one host reply at a time.
  - `element.rs`, `ui.rs` — the UI tree and how it is built from the state.
  - `names.rs` — event names and banner texts.
  - `laws.rs` — properties that span several of the above.
- `tests/` — tests of the library on concrete values.
- `app/` — the plugin's edge: the shared state, the clock, serde_json
  parsing, and the host calls, driven by the library's decisions.
