# qervon

The domain core of a multi-tenant logistics platform (orders, couriers,
dispatch offers, tracking, billing, wallets, coupons, tenants, notifications,
a small workflow runtime, and in-memory stores), written in Verus: every
function in `src/` is verified, and every public one carries a contract that
Verus proves.

Layout:

- `src/` — the verified library. Each domain module states its rules over
  spec functions (status lifecycles, validation messages, text round trips).
  `registry.rs` and `table.rs` hold keyed collections with their lemmas;
  `memory.rs` builds the in-memory repositories on them; `rows.rs` decodes
  stored rows into domain records; `platform.rs` holds the few trusted calls
  into `uuid` and `chrono`.
- `tests/` — executable tests of the library.
- `app/` — what stays outside the verifier: floating-point geometry and fare
  quotes, JSON serialisation of events, the async event-bus port, error
  display messages, and sample fixtures.

Conventions: ids are `u128` (UUID values), times are microseconds since the
Unix epoch, dates are days counted from the Common Era, and floating-point
quantities are kept as the bit patterns of their `f64` values.
