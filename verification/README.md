# game

The rules of a small Katamari-inspired 3D action game, verified with Verus.

- `src/pausing.rs`: the pause state machine. The pause key flips between
  running and paused, the step key advances physics one step while paused,
  and state transitions stop or resume the physics clock so that it is
  stopped exactly while the game is paused.
- `src/characters/character_controller.rs`: which movement actions a frame
  of keyboard state sends (opposite directions cancel), how each action
  changes a character's velocity (jumping only on the ground), and whether a
  character stands on the ground.
- `app/`: the bevy / avian3d program around the library: reading the
  keyboard, the ECS systems, and the floating-point physics and camera work.
