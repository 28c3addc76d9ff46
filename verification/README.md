# libitofin

A verified core of a quantitative-finance library: dates and calendars,
schedules, interest-rate and inflation indexes with their fixing history,
coupons and legs, swaps, caps and floors, credit-default swaps and forward
rate agreements, and the observer and handle patterns that tie them together.

- `src/` is the library. Every function carries a contract proved by Verus.
  Amounts and rates are a type parameter `R`, carried as the caller
  represents them; the library decides dates, periods, fixings, errors and
  structure, never floating-point arithmetic.
- `tests/` runs the library on concrete values, with `f64` amounts.
- `app/` holds the floating-point side: claims, the time grid, and the amount
  arithmetic over the flows, fixings and weights the library computes.
