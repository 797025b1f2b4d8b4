# cliciv

A command-line civilization game: citizens gather food, wood and stone, take
jobs, and put up buildings on a limited amount of land. Every iteration is
hash-chained to the previous one and committed with a small proof of work,
so a saved game can be checked by replaying its log.

Layout:

- `src/` — the verified library (Verus).
  - `game/actions.rs`, `buildings.rs`, `jobs.rs`, `resources.rs`: the game's
    vocabulary and rule tables; the random draw of secondary resources.
  - `game/citizens.rs`, `game/land.rs`: population and land, with the
    laws that every action keeps (capacity, conservation, undo).
  - `game/log.rs`: the run-length log of actions and its laws.
  - `game/hashing.rs`: feeding integers to the standard hasher.
  - `game/state.rs`: the hash chain of a game (`Chain`): advancing,
    committing with a nonce, the difficulty target, the random seed of an
    iteration, and the law that replaying a chain's log reproduces it.
  - `game/errors.rs`: errors and their messages.
- `app/` — the program: command line, save file, and the resource amounts,
  which are floating-point numbers and therefore live outside the library.
- `tests/` — tests of the library.
