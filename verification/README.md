# tg_kit

A toolkit for Telegram bots whose decisions are verified with Verus.

- `src/` is the verified library: the rules that match messages and
  callback queries (text, commands with prefixes and bot mentions, senders,
  regular expressions, combinations), the checks that decide which handler
  gets an update and with what data, the run of an update through
  middlewares and handlers, conversation routing, client configuration and
  the reconnection policy. Regular expressions are compiled and run by the
  `regex` crate behind a few trusted functions in `src/pattern.rs`.
- `app/` is the runtime around it: the asynchronous traits that bots
  implement, the Telegram client (`grammers-client`), conversations over
  channels, and the loops that perform the actions the library decides.
- `tests/` runs the library on concrete values.
