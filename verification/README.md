# xx_core

The core of an asynchronous runtime, verified with Verus: the decisions of its
I/O buffers, synchronisation primitives, channels, intrusive list and
procedural macros, each with a contract proved against a mathematical model.

- `src/` is the verified library.
  - `async_std::io`: buffered reader and writer, `read_until`, `read_to_end`,
    line reading, seeking and typed integer reads, as state machines that a
    driver feeds with the results of the actual I/O.
  - `async_std::sync`: wait list, notify, mutex, broadcast, the bounded
    multi-producer multi-consumer channel and the oneshot channel, with the
    laws they keep (first in, first out; mutual exclusion; wake order).
  - `container`: an intrusive circular doubly linked list over an arena.
  - `cell`, `closure`: the runtime's cell and closure wrappers.
  - `macros`: option parsing, expansion choice and error reporting of the
    procedural macros, over a plain model of token streams.
- `app/` connects the library to the outside: asynchronous I/O traits that
  drive the library's state machines, and the conversion between `syn` /
  `proc_macro2` tokens and the library's token model.
- `tests/` runs the library on concrete values.
