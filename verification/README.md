# coolprop_server

A REST server over the complete C API of
[CoolProp](https://github.com/CoolProp/CoolProp) v8.0.0 (thermophysical
properties of pure fluids, mixtures and humid air), whose request checks,
result decoding, error model and handle bookkeeping form a library verified
with Verus.

## Layout

- `src/` — the verified library:
  - `text` — decimal rendering and `i64` parsing (with their round-trip law),
    Unicode white-space trimming, NUL stripping, comma-list splitting, joining,
    and reading NUL-terminated C buffers;
  - `calls` — how each C call's outputs are read: the `errcode`/message
    buffer convention, status returns, the infinite-value failure sentinel,
    the global error string, `PhaseSI`'s `"unknown:"` failures, row-major
    result matrices, phase-envelope buffers, and the zero-cleared spinodal and
    critical-point buffers;
  - `config` — the configuration keys CoolProp accepts (proved distinct);
  - `coverage` — the table mapping each of the 71 exported C functions to the
    route that serves it (symbols and routes proved distinct);
  - `error` — the error model (400 for rejected input, 404 for an unknown
    AbstractState handle, 500 for internal failures);
  - `state` — the registry of live AbstractState handles;
  - `dto`, `routes` — request/response types and the checks each endpoint
    makes before and after calling CoolProp.
- `app/` — the server program: the C declarations, the calls into CoolProp
  (serialized behind a mutex), axum routes, the OpenAPI document and Swagger UI.
  It links against the CoolProp static library, whose directory is passed to
  the linker with `RUSTFLAGS="-L <dir>"`.
- `tests/` — tests of the library.
