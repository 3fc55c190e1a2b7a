# goodbyedpi_interface

The control logic of a desktop launcher for GoodbyeDPI, verified with Verus.

- `src/` is the verified library: the preset catalog (`presets`), the stored
  settings (`settings`), the status and log types (`status`, `clock`), the
  helper commands for the WinDivert driver and the logon task (`commands`),
  the resource lookup and binary check (`resources`), the state of the managed
  process with status polls, the watcher, stop and shutdown (`runtime`), and
  the staged start of a preset (`start`). `text` holds the string helpers.
- `app/` is the Tauri shell: windows, tray, front-end commands, files on disk
  and the child process. It performs the I/O the library asks for.
- `tests/` exercises the library on concrete values.
