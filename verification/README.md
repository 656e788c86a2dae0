# trading_engine

The verified core of an autonomous, paper-only option-buying strategy.

`src/` is the library, verified with Verus:

- `market` — the incremental market-tick model: a feed frame overwrites only
  the fields it carries; staleness is measured against the local clock.
- `text` — whitespace trimming of feed text and decimal rendering.
- `subscriptions` — the ledger of feed keys already requested.
- `engine` — the engine state between decisions and the outside world: the
  paper-only publishing guard, the entry count, feed subscriptions, the spot
  freshness rule, and the task's per-cycle bookkeeping.
- `gate` — the rules and texts of the publishing guard.
- `config` — the rules a strategy configuration must satisfy, in the order
  they are reported.
- `debate` — how a debate round settles once its scores are known, who
  abstained, and the regime analyst's vote.
- `analysts` — the analysts' warm-up guard and option-type routing.
- `signal` — the fixed parts and identifier of every algo signal.

Prices, quantities, scores and thresholds are floating-point numbers, which
the library does not hold: `MarketTick` and `FeedFrame` are generic over the
number type, and the arithmetic on those numbers (quote metrics, the order-flow
analyst's scores, debate scores, threshold comparisons, tick rounding) lives in
`app/`, which also decodes JSON frames, keeps the shared tick store and sends
signals.

Not present anywhere in this crate: the technical analyst's scoring, bar
ingestion and the bar series, the strike search and risk manager, the full
per-index evaluation, the decision record and dashboard snapshot, and the
strategy task's loop. The library holds their rules that do not need those
parts: the warm-up guard, the staleness test, the regime guard, the order of the
evaluation stages, the publishing guard and the cycle plan.
