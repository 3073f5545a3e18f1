# backend

The server of a shared pixel board with a chat, as a Verus-verified library
(`src/`) and a thin program around it (`app/`).

- `src/game.rs`: the board, its loading, and tile placement under a per-address
  rate limit.
- `src/rate_limiter.rs`: the rate limiter (last-marked time per address).
- `src/text.rs`: whitespace and trimming.
- `src/messages/`: the chat (trimming, censoring, length and rate checks,
  message numbering) and the censor.
- `src/rpc/`, `src/users_handler.rs`, `src/dtos.rs`: what each player message
  does, and what is to be broadcast or replied.
- `src/filters.rs`, `src/lib.rs`: address selection, user-count messages,
  palette decoding, starting the game.
- `app/`: websocket and HTTP plumbing (warp, tokio), JSON (serde), timers,
  the client.

Times are milliseconds read by the caller; addresses are `IpKey`s, an IPv4
address as its 32-bit number and an IPv6 address as its 128-bit number, the
two kinds kept apart.
