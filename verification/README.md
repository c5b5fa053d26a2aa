# nwg_controls

The controls of a Windows GUI toolkit, with the logic that does not need the system
proved by Verus.

Each control keeps its handle and, where it has one, the state it owns (the items of a
combo box or a list box, the table of animation timers). Everything the controls decide
stands in `src/` with a contract: the window each builder asks the system to create and
what it sets up afterwards, the values sent in messages and the decoding of the answers,
the layout computations (labels, text inputs, tabs, number selects), the animation timer
engine, the ordering of list items by their displayed text, the text conversions of edit
controls and the tray notification buffers.

Rebuilding a control works as a window toolkit's does: a builder that resets its control
empties it and names, in its setup, what to release of the control it held; the window
the system then creates is bound with `control_base::bind_created`, and a failed creation
leaves the control as the build left it.

The system calls themselves stay outside: they take the values computed here and hand
back the system's answers, which the library decodes.

- `src/` — the verified library, one module per control plus the shared parts
  (`control_handle`, `control_base`, `color`, `styles`, `error`, `display_order`).
- `tests/` — tests on concrete values.
- `app/` — the worker thread of the animation timers, the displayed text of list items,
  and, compiled on Windows only, the Win32 calls: creating the windows that builders
  describe, binding the message handlers whose decisions the library makes (non-client
  areas, background brushes, scroll bars, tab containers), sending tray icon data, and
  releasing animation timers when they are dropped.
