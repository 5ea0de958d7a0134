# steel_utils (noise router, integer side)

A Verus library for the integer logic of a Minecraft-style noise router:

- `math` — floor division.
- `noise_router::block_pos` — packing block positions into an `i64` (26/12/26 bits) and
  back, with proofs that packing and unpacking are inverse.
- `noise_router::aquifer_sampler` — the world aquifer's cell grid: construction of the
  random sample points, the search for the sample points around a position, the selection of
  the three nearest, the per-cell fluid level cache, and the fluid decisions.
- `noise_router::chunk_density_function` — biome and chunk-column coordinates and the index
  layouts of the density caches (cell cache, flat cache, interpolator planes, cache-once).
- `noise_router::fluid_level`, `noise_router::density_function`, `noise_router::data` —
  fluid levels, noise positions and density function configuration.

`app/` holds the floating-point side (density values, interpolation, density blending of the
aquifer), which calls the library for every index, search and decision on integers.
