# etk

Verified core of a CNN-based binocular eye tracker.

- `src/` (Verus): the integer and byte-level logic, with contracts —
  capture-settings defaults (`config`), the canonical configuration-file path
  computed from `XDG_CONFIG_HOME` / `HOME` (`config`), the size checks and
  error messages of the calibration homography fit (`homography`), and the
  decimal rendering those messages use (`decimal`).
- `app/` (plain Rust): what is floating point or I/O — points, ellipses, the
  homography fit and solver, the One-Euro filter, and the TOML configuration
  tree with file loading and environment lookup. It calls the library for the
  parts above.
- `tests/`: tests of the library.
