# harmony

The decision logic of a Discord bot system — a music bot with an audio node, and
a moderation bot with antinuke and automod commands — as a Verus-verified
library, with the services that run it around it.

## Layout

- `src/` — the verified library. Every public function states what it returns
  in its contract, over spec functions on sequences of characters and numbers.
  - `text`, `numbers`: trimming, splitting, searching, replacing, decimal
    formatting and parsing, as the standard library does them.
  - `prefix`, `commands`, `router`, `interaction`: how a chat message or an
    interaction is recognised and routed.
  - `music`: the requests sent to the audio node, the replies to its answers,
    the queue listings and the now-playing message.
  - `antinuke`, `automod`, `components`, `schema`, `ui`: the moderation
    commands, their settings, their buttons and their registration.
  - `gateway`, `ids`, `cache`, `config`, `sanitize`, `error`: shard routing,
    voice activity, reconnection, locks, settings and log-safe URLs.
  - Public `law_*` proof functions state properties that span several
    functions.
- `tests/` — tests on concrete values.
- `app/` — the services: Discord, Redis and Postgres I/O, the audio node, the
  REST endpoints, and the serialised forms of the library's types.
