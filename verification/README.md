# mudrv

A binding for the MUSA GPU driver in which every decision is verified with
Verus.

- `src/` is the verified library. It never touches the driver: for each
  operation it computes the exact driver call to make (`call::DriverCall`)
  and interprets the driver's reply into the library's values (devices,
  contexts, streams, events, device and host memory, and the spores that keep
  them while their context is switched out). Its contracts pin down every
  call and every value; its laws state how the operations fit together (what
  a release undoes, that a spore only sprouts on its own context, that a
  timing follows its schedule, ...).
- `app/` performs those calls through the driver's C interface and gives the
  values Rust's ownership rules: drops, borrows and the `context-spore`
  traits.
- `tests/` runs the library on concrete values.
