# open_island

The verified core of Open Island, a menu-bar utility that presents demo
activities (timers, recordings, downloads, meetings, notifications) in a
compact overlay at the top centre of the screen, which expands for details
and actions.

- `src/` is the library, checked by Verus: the activity model and its
  validation (`model`), the table of current activities (`table`), the
  reducer that turns actions into a new state and window effects
  (`reducer`), properties of every reduction (`laws`), demo activities and
  their progress ticks (`demo`), what the frontend shows and how it animates
  (`presentation`), and how effects and menu choices become window
  operations and commands (`control`).
- `app/` is the Tauri backend and the Leptos frontend around the library:
  the mutex-guarded state, commands, the native window and AppKit adapter,
  screen layout arithmetic, the tray menu, the JavaScript bridge, and the
  components.
- `tests/` exercises the library on concrete values.

Fractional values (progress, notch width) are carried in the library as the
bit patterns of `f64` values; the app converts with `f64::to_bits` and
`f64::from_bits`.
