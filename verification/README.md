# hollow_earth

Game logic of a survival game set on the inside of a hollow sphere.

- `src/` is a Verus-verified library: entity kinds and their health, creature
  definitions and the decision logic of the hostile and passive creature AI,
  world structure (biomes and their properties, core zones and their
  resources, shell layers and vacuum breaches, chunk neighbours),
  crafting-station requirements, the spore grenade, HUD labels and colors,
  the tether status indicator, tether rules and anchors, the explorer
  registry with its tether links, radiation shields, and the charge-based
  fall arrestor. Each public function carries a contract, and the laws the
  game relies on are proof functions.
- Quantities that the game keeps as whole numbers of blocks or as fractions
  with two decimals (detection ranges, speed multipliers, light radii, biome
  properties, shield reductions) are held in `src/` as integers: blocks, or
  hundredths of the full scale.
- `app/` is ordinary Rust around it: everything that computes on floating
  point (vectors, distances, timers, noise), egui drawing, and serde/bincode
  encoding. Its AI, tether, sync and station code measures the world and
  hands plain facts to the library, which decides.
- `tests/` runs the library on concrete values.
