# pikpaktui

The logic of a terminal interface for a PikPak drive, verified with Verus.

The library holds the state of the interface as plain data. A key, a click, a tick of the clock or a
reply of the drive is a function call that changes this state and may queue effects; the host takes the
effects, performs them and calls back with what came of them. What is on the screen is computed too: a
sequence of panels, lists and bars in their areas, which the host puts on the terminal.

- `app`, `navigate`, `transfer`, `views`, `share`, `settings`, `keys`, `mouse`, `start`: the state and
  what events do to it
- `effect`, `results`: the work that the host is asked for, and what its replies do
- `text`, `text_input`, `width`, `media`, `highlight`, `thumbnail`, `terminal`: text, editing, display
  columns, sizes, streams, coloured text and pictures
- `scene`, `style`, `geometry`, `areas`, `screen` and the modules of the single panels: the screen
- `requests`: what the host has to find out before the screen can be drawn
- `laws`: what holds across several operations
- `soundness`, `key_soundness`, `host_soundness`: what holds in every state of the interface

Contracts are stated over views: `AppView` is the state of the interface, and each operation is a
function from one `AppView` to the next. `app/` is the host: it owns the terminal, the threads and the
drive.
