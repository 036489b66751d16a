# rewire_extras

Shared types for the Rewire ecosystem, verified with Verus.

- `src/heartbeat.rs`: `HeartbeatTracker`, which records bridge heartbeats and
  reports `(connected, bridge_count, aggregate_state)` after pruning stale
  bridges. Its contracts speak of a map from bridge ID to the time and state of
  the last beat; the laws of the tracker are proof functions in the same file.
- `src/node_info.rs`, `src/topic_info.rs`, `src/diagnostics_info.rs`: the
  `ROS2NodeInfo`, `ROS2TopicInfo` and `ROS2DiagnosticsInfo` archetypes, whose
  columns of text are built and proved here and serialized by `re_types_core`.
- `src/columns.rs`, `src/clock.rs`: the trusted items over `re_types_core` and
  `std::time`; `src/decimal.rs`: decimal text of counts.
- `app/`: the Rerun `AsComponents` impls and diagnostics with floating-point
  rates, which the verified library does not hold.
