# argon

An HTTP server that hands out fresh raccoongame accounts, starts cloud game
sessions for them, and searches the game catalogue.

- `src/` is the verified library: the JSON model and its serializer, the
  captcha readers of the two mail providers, the decoding of the service's
  encrypted node assignment, the signalling state machine, the account store
  kept in memory, the stock of ready accounts and its workers' decisions, the
  catalogue gatherer and every endpoint's answer. `src/laws.rs` states the
  properties that hold across operations.
- `app/` is the program around it: the command line, the HTTP server, the
  requests to the mail providers and the game service, the LMDB database and
  the Meilisearch index.
- `tests/` runs the library on concrete values.
