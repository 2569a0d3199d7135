# Omniring

A Pokemon Champions single-battle simulator built as a reinforcement learning environment,
written in Verus: the battle rules, the damage formula, the action checks, the episode loop
and the reward terms carry contracts that Verus proves.

- `src/` — the verified library: Pokemon and move data (`info`, `pokedex`, `techdex`),
  battle state (`state`), actions and their validation (`action`), damage (`damage`),
  turn resolution and the battle (`battle`), the exact reward terms (`reward`) and the
  episode loop (`environment`). Random draws come from the `rand` crate through the
  trusted wrappers of `roll`.
- `app/` — what stays unverified: the floating-point weighting of the reward terms and a
  scripted demonstration battle.
- `tests/` — executable tests of the library.
