# pointers_threads

Pointers, cells, self-referencing values, state machines, and the work that
thread, lock and async demonstrations hand to their threads and tasks.

- `src/` is the library, written and proved with Verus: every public
  function carries a contract, and the laws of the library are proof
  functions beside the code they speak of.
  - `nums`: the `MyNums` family of machine integers.
  - `pointers`: self-referencing numbers, and pointers modelled as places in
    memory.
  - `th1`: copy-on-write values (`th1f`) and three post-publishing state
    machines (`th1g`).
  - `th2`: hand-written `Cell`, `RefCell` and `Rc` (`th2a`).
  - `th3`: the answer of an async lookup (`th3b`) and dispatch through a
    hand-made method table (`th3d`).
  - `threads`, `threads1`: what the thread demonstrations compute: pushing,
    averaging, counting under a lock, adding runs of numbers, and a producer
    and consumer sharing a queue.
- `app/` is the demonstration program: it spawns the threads, takes the
  locks, runs the async runtimes and prints, calling the library for the
  computations.
- `tests/` runs the library on concrete values.
