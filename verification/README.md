# soksak-sidecar-terminal-wezterm

The terminal restore sidecar built on the wezterm terminal model. It mirrors each PTY's
output into a headless terminal, pushes sealed checkpoints to the PTY daemon on a debounce
schedule, and answers rehydrate / cold-paint / resize / status requests from terminal
plugins over the identity-home service socket.

## Layout

- `src/` — the verified library (Verus). Every decision of the service is a function over
  plain values with a contract:
  - `checkpoint` — the debounce state machine (idle and cap deadlines) and its laws;
  - `proto` — daemon wire constants, home-relative socket / token / checkpoint paths,
    the hello message and the reply envelope check;
  - `frame` — tee frame encoding and decoding, the daemon reply readers, the blob push
    request and the token file reader;
  - `modes` — mode tracking from parser actions, and the pointer and wheel routing rules;
  - `grid` — alignment of engine lines into contract cells, cursor style and theme
    overrides;
  - `service` — hello judgement, request routing, reply construction and the per-session
    ledger that drives the checkpoint loop;
  - `text` — the small text helpers the others share.
- `app/` — the process around the library: sockets, threads, the engine and mirror
  adapters, JSON conversion and `main`.
- `tests/` — tests of the library's public functions.
