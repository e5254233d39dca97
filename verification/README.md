# astro_strike

The rules of Astro Strike, a vertical pixel-art space shooter, as a Verus
library, with the Bevy game shell around it.

- `src/` — the verified library: game phases, score and health, level
  progression and difficulty, the boss fight and its health bar, pickups,
  conversations, palette schemes and pixel recoloring, the palette-grade
  tables and dissolve retargeting, map layout and tile geometry, destructible
  props, sprite-sheet frame stepping, PNG header and asset-path helpers.
  Every public function carries a contract; the laws of the game stand as
  public proof functions next to the functions they speak of.
- `tests/` — concrete scenarios for the library.
- `app/` — the Bevy program: windowing, input, audio, rendering and shaders,
  Tiled map loading, file access, and all floating-point motion and timing.
  It asks the library every rule question.

The game reads its art, maps and shaders from an `assets/` folder next to
the executable.
