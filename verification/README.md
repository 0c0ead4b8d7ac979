# directory

Species data, experience curves, natures, the type chart, stat arithmetic
and random move selection for a Pokémon battle simulator.

- `src/` is the library, verified with Verus:
  - `pokemon/attributes/growth_rate.rs`: the six experience curves, the
    experience table, and the level a number of experience points earns,
    with the proof that every curve rises strictly from level 1 to 100 and
    that a level's own requirement earns exactly that level.
  - `pokemon/attributes/stats.rs`, `nature.rs`, `types.rs`, `gender.rs`:
    statistics, natures and their modifiers, the type chart, genders.
  - `pokemon/mod.rs`: species and individual Pokémon and their stat formula.
  - `moves/`: moves, the move manager, and drawing a moveset from a learnset.
  - `battle/`: battle stages and statuses.
  - `random.rs`: the draws from `rand` the library makes.
- `app/` loads the data files, deserializes them, builds Pokémon and runs
  the battle multipliers, which are floating point.
- `tests/` exercises the library.
