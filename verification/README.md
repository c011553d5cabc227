# pte_redox

The OS layer of pthreads-embedded for Redox: result codes, a futex-based
mutex, the registry of created threads, thread-local storage and a few small
computations, with their decisions verified by Verus.

- `src/` is the verified library.
  - `result.rs`: `pte_osResult` and its C codes.
  - `mutex.rs`: the lock and unlock protocols as state machines. The caller
    performs each operation on the mutex word and reports the old value.
  - `mutex_laws.rs`: a model of atomic operations on the word, and the laws of
    the protocols: mutual exclusion under any interleaving, bounded spinning,
    an unlock always finishes, and runs of a thread alone.
  - `thread.rs`: the thread registry, the role of a `clone` result, the
    sleep time and the fixed priorities.
  - `tls.rs`: a thread's table of values, created on first use, and the
    key counter.
  - `atomic.rs`: results of atomic increment and decrement.
- `app/` holds the C entry points. They perform the system calls (through
  `redox_syscall`), the atomic operations on raw words and the allocations,
  and they drive the state machines of `src/`.
- `tests/` runs the library on concrete values.
