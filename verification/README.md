# openai_qa

A desktop client for a chat-completion service, with its logic verified in Verus.

- `src/` — the verified library:
  - `json.rs`: the JSON model; reading a document out of text (`JsonValue`)
    and writing the compact text of a document without numbers (`JsonTree`),
    both by `serde_json`, with the compact text stated in the contract (the
    tests in `tests/json_text.rs` and `tests/exchange.rs` compare it with
    `serde_json`'s own output); lookups in a document;
  - `settings.rs`: the settings and the named system-prompt library, what is
    in use when their files held nothing usable, saving and deleting prompts,
    and the laws that tie these together;
  - `chat.rs`: the request that is sent, reading the reply, the kept record,
    and the shown HTML (via `markdown`);
  - `clock.rs`: time stamps (via the system clock and `chrono`);
  - `window.rs`: the window's small decisions;
  - `text.rs`: blank text (Unicode white space) and decimal numerals.
- `app/` — the window (dioxus), file and network I/O (reqwest, tokio), and the
  `serde` copies of the stored records.
- `tests/` — tests of the library on concrete values.
