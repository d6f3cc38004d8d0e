# nqrustbackup-installer

Installer for the NQRustBackup server stack (Director, Storage daemon,
File daemon, PostgreSQL catalog, WebUI), split in two:

- `src/` — the verified library. It computes the installer's decisions:
  which install phases a source and profile call for, the exact commands and
  scripts each phase runs, how a command line is shown and run under `sudo`,
  what the host facts mean for the pre-flight checks, how `bconsole`,
  `/etc/os-release` and `/proc/self/status` output is read, how verify probes
  are judged, which task the executor runs next, the order of the
  backup/restore round trip and its spot-check tally, the bounded log, and
  the wizard's key handling as a state machine. Every function carries a
  contract proved by Verus; `laws.rs` states the properties that span
  functions.
- `app/` — the program around it, not verified: the command line, the
  terminal UI drawn with ratatui, and the code that reads the host, starts
  processes, walks the restored files, awaits each task and hands the
  outcomes back to the library.

Modules of the library: `text` (strings as character sequences), `model`,
`phases`, `clock`, `log`, `preflight`, `roundtrip`, `roundtrip_run`, `steps`,
`texts`, `source`, `plans`, `verify`, `tui`, `laws`.
