# mygoroutine

Green-thread runtimes modelled on Go's scheduler, with their scheduling
logic verified by Verus.

- `src/` is the verified library: the task model (`common`, `arch`,
  `context`), the shared run queue of the M:N runtimes (`scheduler`), the
  runtime variants (`n1`, `mn`, `mn_poll`, `runtime::{spawn, poll, timer}`),
  the network poller's readiness bookkeeping (`netpoll`) and the wait group
  (`sync`). Each runtime's operations are state transitions with exact
  contracts; the `law_*` proof functions state the properties that hold
  across operations.
- `app/` drives these state machines: worker threads, locks and condition
  variables, stack switching in assembly, and the epoll/kqueue system calls.
- `tests/` runs the library on concrete values.

A task announces a park before it registers with a waker (a wait group, a
timer, the network poller). A `goready` that reaches it after the
announcement but before the park is filed is recorded, and the park then
returns the task to the runnable queue at once; a `goready` of a task that
is runnable, or running without an announced park, changes nothing.

Times are nanoseconds on the runtime's monotonic clock.
