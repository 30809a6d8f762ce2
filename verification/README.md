# pspsdk

The verified core of a software development kit for the PlayStation Portable, written in
Verus.

## Layout

- `src/` — the library, every item of it checked by Verus.
  - `sys/mod.rs`, `sys/result.rs` — error codes (`SceError`), kernel object identifiers
    (`SceUid`), the result words of the system interface (`SceResult`, `SceResult64`) and the
    types that can be their successful value, with the laws that relate reading and writing
    result words.
  - `sys/ge.rs`, `sys/module.rs`, `sys/thread.rs`, `sys/library.rs`, `sys/loadexec.rs`,
    `sys/time.rs`, `sys/mem.rs` — the records, identifiers, attribute flag sets and
    enumerations that the kernel exchanges with programs, their default values and their
    numeric codes.
  - `sys/time.rs`, `time.rs` — spans of time, the wall clock and the monotonic clock.
  - `sys/target.rs` — the kinds of build (PRX, kernel mode, EBOOT) that some defaults depend on.
  - `sys/sync/mutex.rs` — the lazy creation protocol of the kernel-backed mutexes as a state
    machine, the decisions of their lock operations, and a spin lock.
  - `sys/thread/non_stub.rs` — threads and the planning of a sleep into kernel delays.
  - `thread/id.rs` — unique thread identifiers.
  - `testrt.rs` — the bookkeeping and the report lines of the on-device test runner.
- `tests/` — tests of the library on concrete values.
- `app/` — the code that performs the kernel calls the library decides on: the mutex types,
  sleeping, clock reading, thread identifier allocation and the test runner's output.
