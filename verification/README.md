# orbolay

The core of the Orbolay Discord overlay as a verified library, with the
program around it.

- `src/` is the library, verified with Verus: the settings and their texts,
  the IPC frame format and the requests sent to the Discord client, what the
  overlay does on each event, reply and user command, the global keybinds, the
  voice member list, the soundboard panel, notification expiry and the
  configurator's editing rules. Each public function states its result in its
  contract; the laws that relate several functions are public proof functions.
- `tests/` runs the library on concrete values.
- `app/` is the program: command line, settings file, the local socket to the
  Discord client, the keyboard hook, update checks and a terminal view of the
  overlay's state.
