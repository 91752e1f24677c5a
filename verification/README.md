# game_logic

The rules of a small top-down Bevy game, written in Verus and proved against
their contracts; `app/` holds the Bevy program around them.

`src/`:

- `map.rs`: the text map format (rows of `.`, `,`, `~`, `#`) and its parser.
- `layers.rs`: physics layers, the layers of each kind of body, and whether two
  bodies collide (avian2d's rule).
- `input.rs`: the movement intention read from a frame's input.
- `movement.rs`: the player's idle/running/walking/dashing state machine.
- `enemy.rs`: the enemy's idle/patrol/chase state machine.
- `animation.rs`: the player sprite's facing, sheet and frames.
- `flow.rs`: loading, main menu, play, pause, and when the virtual clock runs.
- `interactables.rs`: chests, doors, lights, and interactions from collisions.
- `wallet.rs`: the player's gold and the texts that show it.
- `tiled.rs`: what the named objects of a Tiled map become.
- `render.rs`: depth layers.

`tests/` runs the library on concrete values.
