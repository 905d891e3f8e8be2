# capnp_study

Server objects of a small Cap'n Proto RPC study, with their behaviour proved
by Verus.

- `src/` is the verified library: the bootstrap object `FooImpl` and the
  objects it hands out (`BarImpl`, `BazImpl`, `QuxImpl`), the counters
  (`CounterImpl`, `NaiveCounterImpl`, `BoolBoxImpl`), the rose and its shapes
  (`RoseImpl`, `CircleImpl`, `RectangleImpl`), decimal text, and the command
  line options (`Opt`).
- `tests/` runs the library on concrete values.
- `app/` is the program: command line parsing, logging, and the RPC server and
  client, which answer each call through the library.
- `extras/diamond.capnp` is the interface schema. The RPC code in `app/` needs
  the Rust code that capnpc generates from it into `OUT_DIR`; no build step in
  this crate runs capnpc, so that code has to be produced before `app/`
  compiles.
