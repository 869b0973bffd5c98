# assist_rs

Domain layer for ephemeris-quality propagation of test particles with
ASSIST + REBOUND: orbits, origins and observatories, state-transition
matrices, light-time corrected ephemerides, and management of the data files
(JPL ephemerides, MPC observatory codes, Earth orientation kernels).

## Layout

- `src/` — the verified library (Verus). It holds every decision the stack
  takes that is not floating-point arithmetic or I/O: origin parsing, status
  codes, force flags and variational layout, thread and chunk plans and the
  reassembly of parallel results, the DAF/PCK binary layout, observatory entry
  validation and placement, the kernel catalog and cache paths, the cache
  refresh protocol, what is stored for a download (gzip decoding), the DAF
  summary-record walk, header parsing, and streaming MD5 with sidecar comparison.
  Each public function states its result exactly in its `ensures`; the
  properties that span several functions are public `proof fn`s.
- `tests/` — tests of the library on concrete values.
- `app/` — the unverified shell: the C bindings, the floating-point frame,
  Chebyshev and covariance arithmetic, file and network I/O, JSON, and the
  rayon thread pools. It calls the library for every decision it takes.
