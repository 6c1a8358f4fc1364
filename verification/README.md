# sync-mesh-core

The verified core of the Sync.Mesh daemon and of its test tooling,
written in Verus.

- `src/` is the library. Every function in it is verified except the
  small `external_body` wrappers around `uuid` and `std` calls, whose
  contracts are trusted:
  - `domain`: node identity (`NodeId`, its UUID text and parsing),
    health (`HealthState`), `DaemonInfo`, `ChangeEvent`;
  - `ports`, `system_clock`: the `Clock` port and its system adapter;
  - `status_service`: the status of one instance and its lifecycle;
  - `wire`: the `GetStatus` messages and the wire mapping of health;
  - `data_dir`: the steps of acquiring a data directory and their errors;
  - `handshake`: the handshake record and the endpoint built from it;
  - `backend`, `cluster`: the test tooling's configuration, errors,
    handshake wait decisions and node bookkeeping;
  - `outside`: declarations of the `std` and `uuid` types carried through.
- `app/` is the daemon binary around it: command line, filesystem and
  lock, gRPC server and client, process spawning.
- `tests/` exercises the library on concrete values.
