# flashcards

A vocabulary flashcards server. Every Term (a foreign text and its pivot
translation) yields two Cards, practised on a Leitner schedule. The library
also holds the rules of a multiple-choice practice mode over shared
Vocabulary Entries, Categories and Learner profiles: validation, session
generation, the current-learner cookie and the error envelope.

## Layout

- `src/` — the library, verified with Verus. It holds every decision the
  server makes: Term identity (trimmed, NFC-normalised, UUIDv5), request
  validation, the Leitner `Scheduler`, practice-session generation
  (eligibility, retest cooldown, distractor selection, option shuffling),
  the current-learner cookie, configuration defaults and validation, and
  the error responses of every endpoint. Contracts are stated over
  `Seq`/`Multiset` models; the laws the library promises are public proof
  functions next to the code they speak of.
- `app/` — the executable shell: reads the environment, opens the SQLite
  store (`rusqlite`, embedded migrations), serves the `/terms` and `/cards`
  routes with `axum`, converts clock readings and JSON bodies, and calls
  the library for everything else.
- `tests/` — tests of the library on concrete values.

Calls into outside crates (`uuid`, `unicode-normalization`, `serde_json`,
`chrono`, `rand`) stand behind small trusted wrappers whose contracts say
what the crate computes, or name the result where restating it would mean
restating the crate.
