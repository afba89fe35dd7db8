# par_fractal

The verified core of a GPU fractal explorer, written in Verus.

- `src/` — the library: the fractal-type catalog and its shader
  identifiers (`types`), the integer and enum fractal settings, fractal
  switching and load-time sanitizing (`settings`), attractor and Buddhabrot
  sample accumulation (`accumulation`), the tile-progressive refinement grid
  (`refine`), the command palette, its catalog and fuzzy matcher
  (`command_palette`), keyboard shortcuts (`shortcuts`), render-on-demand
  scheduling (`redraw`), deep-zoom reference-orbit scheduling (`deep_zoom`),
  palette files and palette cycling (`palettes`), built-in presets, gallery
  and storage naming (`presets`, `platform`), frame read-back (`capture`)
  and capture file names (`capture_names`), image comparison
  (`image_compare`), level of detail (`lod`), and the command-line parsers
  (`tools`, `reference`), on top of shared character-level helpers
  (`text`). Every function carries a contract proved by Verus, except
  `text::to_lower`, whose contract over std's `str::to_lowercase` is
  trusted.
- `tests/` — tests of the library on concrete values.
- `app/` — the command-line front end: option handling, the preset list,
  the configuration directory (storage, galleries, preferences), `.pal`
  import, and the arbitrary-precision reference-orbit worker. These parts
  do file I/O, threads or floating-point arithmetic and are not verified.
