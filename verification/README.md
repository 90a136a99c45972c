# cpdb-rs

A client library for the Common Print Dialog Backends (CPDB) D-Bus
protocol, whose logic is verified with Verus.

- `src/` is the verified library: printer states (`types`), option and
  media catalogues (`options`, `media`), discovery events (`events`),
  saved print-dialog preferences (`config`, on the string map of `maps`),
  the client's decisions (`client`: which D-Bus names are backends, which
  backend a name selects, gathering printers, retries, keep-alive), the
  error type (`error`) and the data and handle types of the cpdb-libs C
  bindings with the decisions taken on what cpdb-libs hands back (`ffi`).
- `app/` is the asynchronous side: the zbus proxy of the
  `org.openprinting.PrintBackend` interface, the client that performs the
  D-Bus calls and hands their results to the library, and copies of the
  library's types with serde and `std::error::Error` implementations.
- `tests/` runs the library on concrete values.
