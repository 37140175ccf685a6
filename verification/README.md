# stock_aggregator

A stock price aggregator and live price feed. The decision logic is a Verus
library under `src/`; the program around it (HTTP clients, PostgreSQL,
WebSocket server, timers, logging) is ordinary Rust under `app/`.

- `src/sources.rs`: quote providers and their labels, request addresses, the
  symbols tracked, the plan of one fetch cycle, what follows each fetch task,
  and the mock provider's random pause.
- `src/session.rs`: the state of one live-feed client (its subscriptions),
  how each client message changes it, which price updates it receives, and
  the stats reply; with the laws that relate these.
- `src/service.rs`: the serving loop, the feed's database listener, the
  latest-prices status code, and the service's fixed settings.
- `app/main.rs`: the aggregator; `app/feed.rs`: the live feed, started with
  `--feed`.
