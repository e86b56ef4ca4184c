# proteus

Network-adaptive DPI bypass strategy management, verified with Verus.

- `src/` — the verified library:
  - `ai/` — strategy genomes, their signatures, network fingerprints, the
    genetic evolver, the strategy registry, the trial history, the failure
    back-off of the bandit, and the two orchestration state machines
    (`ai::orchestrator`, `proteus_ai::orchestrator`).
  - `engine/`, `proteus_engine/` — engine statuses, errors, profiles and
    their command lines; the ByeDPI and Zapret engine states.
  - `services/` — engine chains, the engine manager, probe targets and
    summaries, settings, and self-update decisions.
  - `cli/`, `xtask`, `gui` — the argument handling of the command-line tool,
    the build tasks, and the interface's uptime text and log.
  - `text`, `outside` — verified text helpers, and the calls into outside
    crates (random numbers, UUIDs, the clock, SHA-256) with their
    contracts.
- `tests/` — tests of the library.
- `app/` — the command-line program: argument parsing, network and file
  I/O, engine processes, and the floating-point statistics (Wilson score,
  Thompson sampling) that feed the library plain values.

There is no desktop window (eframe/egui) here: of the interface, only its
uptime text and its log buffer are part of the project, in `gui`, as
verified logic.
