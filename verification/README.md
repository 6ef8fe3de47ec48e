# winit_x11

Fail-closed X11 facts for a windowing backend, verified with Verus.

- `src/pointer_facts.rs`: XI2 implicit pointer grabs per device, button-mask transitions, and
  the walk of the window tree under the pointer.
- `src/work_area.rs`: EWMH work-area validation, RandR roster validation, rectangle geometry.
- `src/replies.rs`: acceptance of the X11 replies that a work-area capture reads.
- `src/capture.rs`: the decision that closes a capture (two readings that must agree).
- `src/authority.rs`: the bounded roster of foreign authority windows, the snapshot cache and
  the steps of a snapshot request.
- `src/text.rs`: visible names (UTF-8, no NUL, not only whitespace).
- `app/`: the X11 requests (x11rb), the environment and the floating-point scale factors,
  driving the library.

`tests/` exercises the library on concrete values.
