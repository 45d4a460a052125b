# signal_interner

A verified library of small building blocks around UNIX signals:

- `signal`: the `Signal` enum, the number the C library gives each signal,
  and signal descriptions decoded from the operating system's text and
  interned.
- `interner`: leaking values for the rest of the program's life, and an
  interner that keeps one long-lived copy of each distinct string.
- `atomic_boxed`: a slot that swaps its boxed value by compare-and-exchange
  against a stamp of the value held.
- `holder`: a shared value replaced as a whole (`AtomicArc`), fixed-size slot
  arrays and an append-only store made of blocks of them (`BlockHolder`),
  whose growth is recorded in a chain of blocks.
- `src`: `Asrc`, a shared value replaced from a new handle to the value held.
- `atomic_linked_list`: a doubly linked list whose nodes refer to each other
  by position in an arena.

`app/` holds what cannot be verified: the process-wide interner behind a
lock, and the call of the C library's `strsignal`.
