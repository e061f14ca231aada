# boldtrax

A gateway between trading strategies and exchanges (Binance, Bybit, Aster). Its logic is a verified
library: the functions of `src/` state what they do, and Verus proves it.

That is not so of the wrappers, the private functions marked `external_body`: each makes one call of
another crate or of the standard library, and what its contract claims of that call is believed.
The comment above a wrapper says in words what is claimed. The same holds of the few
`assume_specification` items. A wrapper that reads the clock or draws at random claims little or
nothing of the result, and a method that implements a trait has its contract from the trait.

- `src/` holds the library: decimals and times, instruments and their registry, orders and
  positions, the managers for accounts, prices, orders and positions as state machines, request
  signing, the reconnecting supervisor of streams, the messages between processes, settings, and
  for each exchange its requests, its replies and its streams; also an exchange for paper trading.
- `app/` holds what talks to the world: HTTP, web sockets, ZeroMQ, Redis, files and the tasks that
  drive the library's state machines.
- `tests/` runs the library on concrete values.

Time, randomness and the network never decide inside the library. A function that reads the clock
has a sibling that takes the time as an argument, and what a reply means is decided by a function
that takes the reply.
