# quote_lib

The verified core of a small quote infrastructure: a collector that polls an
upstream quote service, a sink that stores quotes from Kafka in Redis and
Elasticsearch, and an HTTP API that answers the exchange rate between two
currencies from the quotes cached today.

- `src/` — the library, verified with Verus: configuration parsing
  (`config`, `decimal`), log file naming (`logger`), cache keys and expiry
  (`cache`), the currency feed (`feed`) and the quote inquiry protocol
  (`inquiry`).
- `app/` — the three services (`api`, `collector`, `sinker`): network, Redis,
  Kafka, Elasticsearch and logging, around the library.
- `tests/` — tests of the library.
