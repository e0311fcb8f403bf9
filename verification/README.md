# npc_mind

The mind of non-player characters: OCC emotions and the scenes they drive,
HEXACO personalities, relationships with their bonds, memories and rumours,
the worldbuilding aggregates (groups, places, persons, eras, events,
timelines, atlases), event routing, and the acting guide that tells an
actor how to play an NPC now.

## Layout

- `src/` — the library, verified with Verus. Public functions state what
  they return in their contracts. The wall clock (`clock::now_ms`) is the
  one exception; reads from the world store (`world::repository`) are
  stated in terms of the answers the store's implementation names for
  each id. Numbers that are floats elsewhere in the
  engine (scores, intensities, moods, thresholds) are held as the bit
  patterns of IEEE 754 single-precision floats and compared exactly as
  floats compare (`src/float_bits.rs`).
- `app/` — the engine around the library, not verified: reading TOML
  files, the process-wide tuning profile, and the parts that do floating
  point arithmetic (appraisal and stimuli, averages, memory scores,
  similarities, significance, axis arithmetic, PAD analysis), and the
  memory augmentation loop, which performs the steps the library decides.
- `tests/` — tests of the library.
