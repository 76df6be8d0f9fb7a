# network_communicator

A network manager for downloading content with curl: a pool of worker
threads, each running an event loop over curl's multi interface, a channel
for sending requests and one for receiving results.

- `src/` is the verified library: the configuration and its checks, tasks,
  the errors, the round-robin dispatching of tasks to workers, the count of
  running requests, and the state of an event loop (which socket and which
  transfer handle stand under which token, what to do with each report of
  curl, when the loop stops). Each public function has a contract; the laws
  that relate several of them are proof functions beside them.
- `app/` runs the threads, the channels, the poll and curl's multi handle
  around that state, and hands it what those calls return.
- `tests/` exercises the library on concrete values.
