# async_chores

Household chores run concurrently on a single-threaded async executor.

- `src/` is the verified library: each chore (`Breakfast`, `Laundry`,
  `AroundTheHouse`) is a sequence of sub-tasks whose order, timers and
  recorded outcomes are stated in contracts; the nested trash chore is a
  state machine (`Start -> Gather -> TakeOut -> Done`) whose poll decisions
  are proved to move forward and to finish with `true`; `ChoreRun` keeps the
  cursor of a chore being started; `household` picks the chores for a
  command-line choice; `verbosity` reads the trace level setting.
- `app/` is the program: argument parsing, tracing, the timers, the futures
  and the executor. It performs what the library decides and reports each
  outcome back.
- `tests/` runs the library on concrete values.
