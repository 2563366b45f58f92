# robmikh-common

Helpers for Windows composition, screen capture and Direct3D/Direct2D
interop, built on the `windows` crate.

- `src/` is the verified library: the COM result-code logic (`error`,
  `universal::null_return`, `universal::try_cast`), the Direct3D device
  creation fallback and the texture and swap chain descriptors
  (`universal::d3d`), the Direct2D factory options (`universal::d2d`) and
  the dispatcher queue options (`desktop::dispatcher_queue`), each with its
  contract and the laws that relate them.
- `app/` holds the calls into Windows that need `unsafe`, COM interfaces or
  WinRT objects, and hands the library plain values.
- `tests/` runs the library on concrete values and checks its constants
  against those of the `windows` crate.
