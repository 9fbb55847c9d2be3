# mdscreensnap

A small command-line screenshot tool for Windows and WSL, written in Verus.
The library under `src/` holds the tool's logic with its contracts and
proofs; `app/` is the command-line program around it.

## Layout

- `src/text.rs` – character-level helpers (search, replacement, decimal
  rendering) and the standard string functions the tool relies on.
- `src/monitor.rs` – monitor selection (`primary`, `all`, an index) and the
  capture method, with their display forms.
- `src/filename.rs` – timestamped file names (`YYYY.MM.DD_HHMMSS[_suffix].png`),
  sanitizing of suffixes, and the check of the file-name shape.
- `src/paths.rs` – the `std::path` operations the tool uses, on text.
- `src/script.rs` – the PowerShell scripts for capturing, listing monitors
  and copying to the clipboard.
- `src/protocol.rs`, `src/plan.rs` – what each platform-dependent operation
  asks of the system (platform detection, `wslpath`, PowerShell, `cmd`,
  `xdg-open`) as a function of the answers received so far.
- `src/runtime.rs` – the `Runtime` trait through which the system is
  reached, and the operations carried out through it.
- `src/session.rs` – one invocation of the tool as a state machine: from
  the arguments and the result of each action, the next action.
- `app/` – argument parsing (clap), the production `Runtime`, and the loop
  that performs the actions of `src/session.rs`.
