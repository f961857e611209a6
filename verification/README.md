# Cargonauts

A type C planet for the common space game (`common-game`): one energy cell, Carbon
generation, every complex resource, and one rocket.

- `src/` is the library, verified with Verus: the handlers for sunrays, asteroids,
  internal state requests and explorer requests, their contracts over a model of the
  planet state, and the laws they obey (`src/laws.rs`). The calls into `common-game`
  stand behind the trusted items of `src/outside.rs`.
- `app/` implements the game's `PlanetAI` trait by handing each event to the library,
  converts between the game's message types and the library's, and holds
  `create_planet`.
- `tests/` runs the handlers inside real `common-game` planets.
