# kcp_rust

Sessions over the KCP protocol, split in two crates.

- `src/` is the verified library. It holds the logic: the bounded queues
  and signal channels that connect a connector's or listener's tasks
  (`queue.rs`, `signal.rs`), the per-session state machine that decides
  reads, writes, flushes, closes, timeouts and poller rounds (`poller.rs`),
  conversation-id allocation and the reader task's decisions (`client.rs`),
  the listener's session table and admission decisions and the closer
  tasks' decisions (`server.rs`), the packet-level decisions
  around the KCP engine (`kcp.rs`) and the error model (`error.rs`). Every
  function states its result in its contract, and the laws that relate
  them are proof functions beside them.
- `app/` is the asynchronous runtime around it: the bindings to the C
  engine, the mutexes and wakers, the futures, the sockets and the tokio
  runtime. It hands the library the engine's and the clock's answers and
  performs the actions the library returns.
