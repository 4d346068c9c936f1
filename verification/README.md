# bevy_game

The interface logic of the game "Just Let Me Sleep", verified with Verus.

`src/` holds the decisions behind the game's screens as plain functions on
plain values, each with a contract: the palette and its roles, sprite depths,
a one-shot timer, the battle bars and speed panel, buying and placing squads,
the leaderboard ranking and its texts, the buffs line, hit flashes, the fade
overlay, the camera shake, the settings menu, and the plugins' registrations
written down as data (`app_plan`). Public proof functions state the laws
that hold across calls.

`app/` is the engine side: it reads the engine's state, calls the library,
and writes back the result.

`tests/` runs the library on concrete values.
