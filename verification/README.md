# horde

The rules of a top-down horde-survival game, verified with Verus.

- `src/` — the verified library: enemy kinds, behaviour and opening roster
  (`enemy`), keyboard steering, weapon choice and the projectiles a shot fires
  (`player`), projectile hits on enemies (`projectile`), gem pickups and weapon
  levels (`pickup`), the floor tiles (`map`), the debug overlay switch and
  status line (`debug`), and the random draws taken from `rand` (`random`).
- `app/` — the Bevy game shell: positions, motion, frame time and drawing,
  all of which are floating-point; it hands the library whole numbers and
  flags and applies what comes back.
- `tests/` — tests of the library on concrete values.
