# samp_sdk

An SDK for SA-MP / open.mp server plugins whose decision logic is
verified with Verus.

- `src/` — the verified library: AMX error codes and their laws, the
  protocol constants, the AMX header arithmetic (`USENAMETABLE`,
  `NUMENTRIES`, `GETENTRY`, `GETENTRYNAME`), the steps of string reads and
  writes through the AMX, `amx_PushAddress` offsets, native redirection,
  and the choice of natives a plugin still has to register.
- `app/` — the server-facing side, not verified: the C layouts of the AMX
  structures, the AMX function table and `logprintf`, the unsafe
  pointer-level helpers that run the verified steps, the `SampPlugin`
  trait with `define_plugin!`, the open.mp component emulation with
  `define_component!`, and an example plugin.
- `tests/` — tests of the library.
