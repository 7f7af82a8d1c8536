# clipi

A small clipboard history manager: it lives in the background, stores what
you copy in a SQLite database, and shows a searchable palette on a global
shortcut (Alt+C, Option+C on macOS).

The project is written in Verus. `src/` is the library, verified:

- `config`: settings, their documented ranges and defaults, where the
  configuration and database live, and what saving the settings does.
- `store`: clip kinds and rows as the database holds them, and the eviction
  policy that keeps the history within its entry and size limits.
- `search`: the full-text query built from the search box, fuzzy ranking of
  hits (a stable sort by score), one-line previews, and what to list.
- `hotkey`: parsing and showing shortcuts, and capturing a new one.
- `clipboard`: fingerprints of clipboard content, which content is new, PNG
  encoding of images, and what the watcher does for each command.
- `palette`: how the palette window reacts to commands, focus and keys
  (Escape hides, Enter restores, the arrows move, Delete removes).
- `win`: window state shared between threads.
- `text`: character and string helpers.

`app/` is the program around it: the egui window, the SQLite database, the
clipboard thread, configuration file I/O and platform code.

The program has no tray menu, no file dialog behind a "Browse" button, and
uses the default window icon: the database path is typed into the settings window,
and the palette is reached through the global shortcut.
