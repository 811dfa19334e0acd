# aurora_streams

Publish/subscribe channels over tokio: typed channels carrying JSON text,
broadcast channels and watch channels, all fed through a backend (in memory by
default).

- `src/` is verified with Verus: the channel registries (`streams`,
  `broadcast_streams`, `watch_streams`), the in-memory backend's channel table
  (`backend`), the decisions each subscription loop takes on every event, the
  error types and their texts (`errors`), the tokio and `TypeId` calls the
  library makes with their trusted contracts (`channels`), and properties that
  span several operations (`laws`).
- `app/` is the asynchronous API (`AuroraStreams`, `AuroraBroadcastStreams`,
  `AuroraWatchStreams`, `InMemoryBackend`, the `PubSubBackend` and
  `MessageStream` traits, `create_streams`): it takes the locks, spawns the
  tasks, awaits the receivers, serialises messages with serde_json, and asks
  `src/` what to do at each step.
- Publishing is fire-and-forget: a message for a channel nobody listens to
  is taken and reaches no one, so a typed channel can be published to as soon
  as it is created.
- `tests/` exercises the library with real tokio channels.
