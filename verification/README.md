# sovd_gateway

Verified core of an SOVD gateway whose data comes from a vehicle simulator.

- `src/signal_backend.rs`: signal errors, their display text, and how they
  become SOVD data errors.
- `src/simulator_backend.rs`: the simulator API root from a base URL, the
  simulator paths that serve a signal, and how failed simulator requests become
  signal errors; with lemmas on URL normalisation and on the answers to failed
  requests.
- `src/simulator_topology.rs`: the published components and data resources, the
  entries each data provider registers, and lemmas on the topology (component
  order, distinct ids, tags, string endpoints).
- `app/`: the asynchronous backend trait, the HTTP client calls, and the
  construction of the SOVD topology objects from the library's tables.
