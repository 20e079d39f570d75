# democracy_simulator

A terminal democracy simulator whose deterministic core is verified with Verus.

- `src/` — the verified library:
  - `config.rs`: simulation configuration, validation, presets, resolution of
    preset and overrides, and the configuration-derived seed.
  - `history.rs`: bounded histories (event log, protest window, policy queue)
    and the law that they keep exactly the most recent entries.
  - `government.rs`: the government's term countdown, elections falling due,
    installing an election outcome, the end of a tick with its election
    schedule, and the policy queue with its ten-tick lag.
  - `social.rs`: the reform countdown and protest fatigue.
  - `events.rs`: the book of social events: cooldowns, the crisis/boom,
    protest, uprising and reform rounds of a tick, the reform under way,
    hardship and the phase transitions it forces.
  - `election.rs`: Fisher-Yates shuffling as a function of its swap draws,
    the draws taken from the seeded generator, and voter selection.
  - `view.rs`: what the screen shows of the event log and how keys and mouse
    clicks move the scroll position and the setup form's cursor.
- `app/` — the program around it: the floating-point simulation (citizens,
  economy, events, election tallies), saving and loading with serde, the
  command line (clap) and the terminal interface (ratatui, crossterm).
- `tests/` — tests of the library on concrete values.
