# mulder

The verified core of Mulder, a library that computes atmospheric muon fluxes
through geometries (Earth layers, or local geometries loaded from modules), and
renders pictures of those geometries.

Everything under `src/` is proved by Verus: each public function states in its
contract what it returns, as a function of its arguments, over spec functions
of plain values (`Seq<char>` for text, `Seq`, `Map`, integers).

## Layout

- `materials/`
  - `set.rs`: the sets of materials shared between geometries and physics
    tables, with reference counts and version stamps; the laws that the
    operations keep (a removal undoes an addition, a change of names stamps a
    new version, ...).
  - `formula.rs`: the grammar of chemical formulae ("H2O").
  - `names.rs`: the order of material names, a stable sort by name, and the
    comparison of compositions by name.
  - `properties.rs`, `registry.rs`: the reading of element and material
    definitions, and the rules of their registration.
  - `mdf.rs`, `toml.rs`: the layout of the Materials Description File read by
    Pumas, and of the TOML cache of materials.
- `simulation/`: the keyword arguments of a fluxmeter, the layout of its
  results, particles, physics notifications, the sources and cache of
  materials, and reference flux tables (including their binary file header).
- `camera/`: pixel walks and resolutions, shooting (which layer a pixel sees),
  shading, and the date and solar time of the sun light (parsed by `chrono`).
- `geometry/`: checks on the shapes of elevation data and on data sources.
- `utils/`: normalised errors and their messages, numbers as text, argument
  extraction and array sizes, enumerated options.

`app/` holds what the library cannot: floating-point arithmetic (material
compositions, flux interpolation, element data), terminal output, the global
source of versions, and conversions to and from `chrono` values. `tests/`
checks the library on concrete values.
