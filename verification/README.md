# proxy_stack

The decision logic of a proxy's service stack, verified with Verus:

- `buffer`: a daemon that builds a service and then feeds it requests from a
  channel, one per confirmed readiness; the response future that waits for it.
- `router`: a route table bounded by a capacity (backed by `indexmap`), and
  the routed response future.
- `hedge`: pre-emptive retries after a latency percentile, and `Rotating`,
  the read/write pair that keeps one full period of latencies.
- `stack`: the layer and stack combinators (`Either`, `when`, `map_err`,
  `map_target`, `stack_per_request`, `watch`, ...), and the state machine of a
  service that is made from a stack before it serves.

Each future's poll loop is a state machine here: the driver reports what a
poll gave (`progress::Progress`, `progress::Recv`, ...) and gets back what to
do next. `app/` holds those drivers, with the futures 0.1 channels, timers and
`tower_service::Service` implementations.
