# tg_adapter

A Telegram adapter for the Shinobu bot framework, with its decisions verified
by [Verus](https://github.com/verus-lang/verus).

- `src/` is the verified library. It turns Telegram updates into events and
  events into requests to Telegram, and decides how the plugin is loaded, how it
  reconnects and how it is unloaded. It does no I/O.
- `app/` is the plugin around it: it talks to the framework (the crates
  `snb_core` and `snb_macros`), to Telegram and to the async runtime, and does
  what the library decides. It requires a bot token configured in
  `configs/TGAdapter/config.toml`.
- `tests/` runs the library.

`Cargo.toml` names `takecell` only to hold it at a version that the stated Rust
version builds; nothing here calls it.

## What is trusted

Three functions of the library call other crates, and their contracts are
believed, not proved:

- `entity::entity_ranges` calls `teloxide::types::MessageEntityRef::parse`,
- `media::parse_url` calls `url::Url::parse`,
- `media::decode_base64` calls `decode` of
  `base64::engine::general_purpose::STANDARD`.
