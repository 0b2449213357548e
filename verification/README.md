# simthing_driver

Deterministic planning, layout, admission and replay logic of the simulation driver, written in
Verus: every function under `src/` carries a `requires`/`ensures` contract that Verus proves.

Layout:

- `src/` — the verified library, one module per driver surface: arena registry, hierarchy bands
  and participant bookkeeping; the atlas, disruption-decay and compound-field runs; the dress
  rehearsal map generator, location materialization, atlas packing and store helpers; the
  Local Patrol Economy and Nested Starmap command admission, schedules and demos; the
  ActionBand dependency and conserved-progress lowering; shared
  diagnostics, decimal text and FNV replay checksums.
- `tests/` — executable tests of the library, including exact checksums and export texts.
- `app/` — the floating-point companions (VRAM ratio, G=0 field sampling, child-contribution
  store oracle) that stay outside the verified library.

Values that the driver receives from the simulation (the gameplay observation, the production
path's report) are handed to the library as plain values; the library completes its reports
with them and states exactly how.
