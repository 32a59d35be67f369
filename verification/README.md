# `val`

A small Linux tool for repeatable Firedancer update, build, and systemd lifecycle operations, with
its logic verified in Verus.

- `src/` is the verified library. It performs no effects: a procedure makes requests
  (`session::Request`) and decides by the replies. Each procedure has a specification function
  whose name ends in `_run`, which says for every sequence of replies what is asked and how the
  procedure ends; the executable function is proved against it.
- `app/` is the program around it: it parses arguments, performs requests (processes, files,
  websocket, lock, log), and repeats a procedure with one more reply until it ends.
- `tests/` runs the library against prepared replies and the outside crates.

## Modules

| module | what it holds |
| --- | --- |
| `text` | character classes, trimming, lines, substitution, numerals |
| `process` | commands, outcomes, paths, relaying of child output |
| `session` | requests, replies, transcripts, runs |
| `service` | systemd unit state, start, stop, running version |
| `configure`, `restart` | host configuration and the restart sequence |
| `repository` | locating a ref, moving the checkout, building |
| `update_full` | the full update with its compact progress |
| `monitor` | the GUI endpoint and the websocket watch as a machine of events and steps |
| `status` | the status report and the identity key |
| `paths`, `privilege`, `lock`, `cli`, `dispatch` | options, operating user, command lock, routing |
| `progress`, `logging` | status lines, spinners, terminal filter, log rotation |
| `replay` | a procedure repeated over more replies takes up where it was waiting |
| `conduct` | what procedures do and never do, whatever the replies say |

## What is trusted

Outside calls in `src/` are private wrappers with their contracts: the `Debug` form of a path
(`process`), JSON bytes, Ed25519 key derivation, base 58, and wiping of secrets (`status`), and the
specification of `String::push` (`text`). Everything else in `src/` is proved.

The secret key never becomes part of a reply: `app/` hands the text of the keypair file to
`status::identity_reply`, which wipes it and answers with the public key. Where the answer comes from
that function, the key of a status report is that of the file it names
(`status::law_report_names_the_key_of_its_keypair`).
