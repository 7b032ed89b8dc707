# cheatess_backend

The backend of a chess assistant: it watches a chess board on screen, feeds
the detected moves to a Stockfish engine and streams the engine's analysis to
a front end.

`src/` is the verified core (Verus):

- `wrappers/args.rs` — the configuration records and the laws of patching
  them (`PATCH /ext_config`).
- `wrappers/func.rs` — engine set-up (`ProdFunc::init_stockfish`), with the
  options rendered by `decimal.rs`.
- `interfaces/` — the engine and helper traits, and the error type.
- `mocks/` — preset stand-ins for the engine and the helpers.
- `route/http.rs` — the `POST /init` set-up as a step function, `GET /board`
  and the configuration patch.
- `route/ws.rs` — the game loop as a step function and the position reports.

`app/` runs the service: it holds the shared state, performs the screen
capture, image processing and engine calls that the step functions ask for,
and serializes the answers.
