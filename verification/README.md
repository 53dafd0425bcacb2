# amogus_bot

A Telegram bot whose decisions are verified with Verus.

- `src/` is the verified library: MarkdownV2 escaping, the command parser
  and help text, number text, and for each command the rules that pick what
  is sent (a random post and how it is sent, the stream of best quality
  below 480p, the HLS variant of highest bandwidth, the nhentai query and
  filters, the JSON-escaped text-completion request) and the caption that
  goes with it. Calls into outside crates (`regex`, `m3u8-rs`, `serde_json`,
  `html-escape`, `url-escape`, `rustube`, `rand`, `hentai`) sit behind
  small trusted wrappers whose contracts name or state what those crates
  compute.
- `app/` is the bot itself: HTTP requests, files, ffmpeg, the Telegram
  dispatcher and JSON decoding, handing plain values to the library.
- `tests/` runs the library on concrete values.
