# bat_flight

Bat Flight is a small flying game: a bat flaps between pillars, catches
coins and hearts, dodges gears and owls, and moves through five levels to an
end screen. This crate holds its rules, verified with Verus; the game itself
(rendering, input, sound, physics in floating point) is the Bevy program
under `app/`.

- `src/states.rs`: the game and level states, what a press does, level
  progression by coins, and which hazards each level has.
- `src/score.rs`: the tally of a run and every event that changes it
  (coins, hits, hearts, falls, shots), and the restart.
- `src/boss.rs`: the owl boss's health.
- `src/text.rs`: the coin counter and the closing summary text, with proofs
  that the numbers shown read back as the numbers held.
- `tests/`: runs of the rules on concrete values.
