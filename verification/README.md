# oscar_bio_dev

Telemetry hub for environmental sensor nodes (ESP32, RP2350) relayed by edge
gateways: readings are validated against their physical ranges, kept in an
in-memory digital twin of the fleet, streamed to a dashboard, stored in a
time-series database, and explained by an assistant.

The library (`src/`) is written in Verus and verified: every public function
states what it returns or changes, and the laws of the model (range
invariants of the readings, exact widening of wire floats, the twin's
capacity and eviction order, the retry and reconnection schedules) are proved
there.

- `src/ieee754.rs`: readings are held as IEEE-754 bit patterns and reasoned
  about exactly (range tests, binary32-to-binary64 widening).
- `src/shared.rs`: the validated readings, the telemetry record, its
  protobuf transfer object and the gateway health event.
- `src/backend/`: decisions of the ingestion service (ingestion, health
  events, dead letters, tokens, assistant prompts), the digital twin, the
  Pub/Sub subscriber and the storage worker.
- `src/frontend.rs`: decisions of the dashboard (stream address, chat panel).
- `src/domain/`, `src/api/`: the first, single-listener ingestion service.
- `app/`: the server around the library: HTTP and WebSocket handlers, TLS,
  database and Pub/Sub I/O, and the JSON/protobuf forms of the library types.
- `tests/`: tests of the library on concrete values.
