# libass

Safe bindings to libass, the ASS/SSA subtitle renderer.

- `src/` is the verified core: the conversions between the Rust API and the C
  ABI of libass (C strings, `int` lengths and flags, the codes of the C enums)
  and the reading of what libass returns (null handles, frame change codes,
  font update status), each with a contract proved by Verus, and the laws that
  tie them together (codes read back as the values written, C strings read
  back as the Rust strings).
- `app/` holds the handles (`Library`, `Renderer`, `Track`, `StyleHandle`,
  `Event`) and the `unsafe` calls into `libass-sys`; it calls `src/` for every
  decision.
- `tests/` runs the verified functions on concrete values.
