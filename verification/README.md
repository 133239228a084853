# benchctl

The benchmarker's command line, with its rules verified by Verus.

`benchctl` drives an engine through a correctness gate and timed phases, pairs a candidate with a
serial baseline, and seals what it measured. The library decides: which command lines are accepted,
which checks a run makes and in what order, which results may be merged with which gates, what is
refused and in which words, and what is sealed. The program around it reads and writes files, asks
the environment, spawns engines and computes in floating point.

## Layout

- `src/` is the library.
  - `overlay/` merges the gates half of a score with the results of a paired run: `series` and
    `pool` hold the run to its timed series and to its prompt pool, `composite` to the composite of
    its cohort, `gates` to the harness, `merge` does the merge, `members` names what it adds to the
    score document, and `laws` states what follows.
  - `official` and `payload` take an official run from phase to phase and seal it; `commit` decides
    the commit it is sealed under.
  - `measure`, `measure_args`, `spec_config` and `track` are the paired run: its command line, its
    specs, its checks and its verdict, and what its track asks of it.
  - `iterate`, `iterate_args` and `run` are the `iterate` subcommand; `checks`, `overlay_args` and
    `cli` are the others.
  - `integrity`, `paths` and `json` make the integrity records; `pool_source` finds the expected
    pool.
  - `number` compares floats by their bits, and `text` reads and writes texts. The modules that end
    in `_texts`, and `overlay/refusals`, hold the words of every message.
- `app/` is the program. `harness.rs` and `paired.rs` call the crates `bench_core`,
  `bench_protocol`, `bench_runner` and `bench_harness`, which do the work on the machine.
- `tests/` runs the library.

A float reaches the library as a `Number`: its bits, and the texts that it prints as. What has to be
computed in floating point is handed in as such a number, and the library compares it.
