# ipc_clock

Benchmarks of inter-process communication on Linux (time-stamp counter,
realtime clock, a system call, pipes, socket pairs, TCP and UDP), split in two:

- `src/` is a verified library: the warm-up of the message buffer, the
  arithmetic on counter and clock readings, the fastest-sample statistics, the
  state machines that decide when a partial read, write, send or receive has
  moved the whole message, and the throughput loss report. Each function has
  a contract that Verus proves.
- `app/` is the program: argument handling, the counter reads in assembly,
  `fork`/`socketpair`/`read`/`write` through `libc`, the sockets, and the
  floating-point figures that are printed. The first argument names the
  benchmark (`pipe_fork SIZE`, `pipe_time`, `rust`, `rust_time`, `getppid`,
  `tcp_server ADDR`, `tcp_client ADDR`, `udp_server FROM TO`,
  `udp_client FROM TO`, `udp_server_t FROM TO`, `udp_client_t FROM TO`).
