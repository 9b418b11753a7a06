# rusteze

The core of a small Redis-like server, verified with Verus.

- `src/native_types` and `src/redis_type`: the RESP codec (simple strings,
  integers, errors, bulk strings, arrays), with laws that decoding gives back
  what encoding wrote.
- `src/database.rs` and `src/database/dump.rs`: the key space (strings, lists
  and sets, each key with an optional deadline), and its dump: what a
  snapshot writes and what a restore reads back, line by line, with the law
  that a restore of a snapshot gives back every key that had not expired.
- `src/commands`: the commands on strings, sets, the server and its
  configuration, each with a contract over the key space, and laws that
  relate them.
- `src/string_map.rs`: maps and sets keyed by text, kept in vectors with no
  text twice.
- `src/memory_checker.rs`: what a periodic job decides on the reply to the
  command it sent.
- `app/`: the program around the library: files, the clock, threads.
