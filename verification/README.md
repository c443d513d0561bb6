# vp_trader

A BTCUSDT futures bot that trades taps of the weekly volume profile's
point of control and value-area edges, confirmed by a rising ADX and an
absorption bubble, with exchange-side stop and take-profit orders.

## Layout

- `src/` — the verified library (Verus):
  - `strategy/engine.rs`: the engine's decisions — one evaluation per closed
    15m candle, the week-start clock arithmetic, tap counting per level, the
    position state machine (flat → pending entry → open → flat) and the
    orders it places, with the laws that tie them together.
  - `strategy/state.rs`: value-area level kinds and per-level tap records.
  - `exchange/binance.rs`: the client's credentials and every request text
    (query strings, URLs, signed URLs) for the futures REST API.
  - `exchange/mac.rs`: HMAC-SHA256 and hex encoding from the `hmac`, `sha2`
    and `hex` crates, behind trusted wrappers.
  - `exchange/types.rs`: the order request as it goes on the wire.
  - `text.rs`: decimal and hexadecimal rendering, string comparison.
  - `clock.rs`, `tradelog.rs`: the system clock.
- `app/` — the program around it: configuration, HTTP calls and JSON
  replies, the floating-point indicators and risk management, the trade
  journal file, and the dashboard server.
- `tests/` — tests of the library on concrete values.
