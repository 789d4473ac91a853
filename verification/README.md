# flamewm_wm_x11

The decisions of an X11 window manager, verified with Verus: frame
geometry and layout, the pointer-interaction reducer, size hints, EWMH and
ICCCM message handling, work areas, motion coalescing, snap-preview
fencing, title-bar chrome values and paint plans, decoration caches, and the desktop
services (windows, workspaces, displays, session) over EWMH and RandR
values.

- `src/` is the library. Every function there carries a contract, and the
  laws the window manager relies on (round trips, fences, invariants kept
  by every operation) are public proof functions next to the code they
  speak of.
- `app/` is the connection to the X server (x11rb): it polls events into
  the coalescing pump, reads properties and RandR replies, serves the
  desktop services, paints frames from the library's title-bar plan, and
  reads settings from the environment. The window manager's own event
  loop, which needs the renderer and reactor crates, is not part of it.
- `tests/` runs the library on concrete cases.
