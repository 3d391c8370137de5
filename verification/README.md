# archery

The rules of a small third-person archery game, verified with Verus.

`src/` is the library. Every function of it is verified except two small
trusted wrappers, whose contracts are taken on trust: `timer::bevy_once_timer_tick`
(bevy's `Timer::tick`) and `draw::random_ratio` (rand's `Rng::gen_ratio`).
The modules:

- `timer`: non-repeating countdown timers in nanoseconds, advanced by bevy's
  `Timer::tick`.
- `player`: the bow (charge while space is held, release to shoot, shoot
  cooldown and power-shot cooldown), the projectile chosen by the charge, and
  the walking rule.
- `combat`: arrows hitting enemies (one point per contact) and enemies
  reaching the player.
- `warnings`: which enemies get a warning sign and which signs are stale.
- `draw`: random draws from `rand`, which report the ratio they were made with.
- `spawning`: when an enemy may appear (two-second windows, one-in-two draw
  from `rand`).
- `hud`: the score line and the power-shot cooldown indicator.
- `game_state`: playing, game over and restarting, and the moves between them.

`app/` is the bevy game around it: rendering, input, the ECS schedule and all
floating-point geometry (positions, distances, colours, UI scaling).
