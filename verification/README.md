# nv2_engine

The verified core of the NV2 voxel survival engine.

`src/` holds the logic that decides something, each function with a Verus
contract:

- `block` — the block registry: ids, registry names, display names and
  their lookups.
- `egs` — Epic Games Store integration: launcher-argument parsing,
  credential merging, and the EOS connection state machine.
- `gameplay` — which animals live where, tool wear, achievements and the
  session's night/kill/health reports.
- `biomes` — biome block and tree-species tables, the choice of a
  column's top block, and the block-level assembly of terrain columns
  (filler, water, caves, ores, ground cover, spawn points).
- `meteo` — the embedded climate-grid file format.
- `textures` — texture palettes and patterns per block or file name, the
  name seed and the tile-noise hash.
- `ai` — vegetation classes, the bounded player-feedback queue, the
  trainer's epoch schedule, the weight-initialisation generator and
  texture tiling.
- `text` — character-level helpers the parsers share.

`app/` is the engine around it: the EOS SDK bridge (FFI), the
floating-point simulation (clock, survival stats, animals, enemies), noise
sampling for world generation, climate interpolation and the NASA POWER
fetch, and the MeMLP neural model with its background trainer.

`tests/` exercises the library on concrete values.
