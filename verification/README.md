# zoh_monitor

The core of a desktop system monitor, verified with Verus.

- `src/` is the library. It reads what system commands print (`netstat`, `netsh`, `wmic`,
  `nvidia-smi`, `docker`, PowerShell, the version flags of development tools), watches how long
  each application is in front, scores the health of the system, and decides what the window and
  the command line answer. Every function states what it returns, and the laws that hold across
  functions stand as public proof functions whose names begin with `law_`.
- `app/` is the program around it: it runs the commands, asks the hardware, keeps the database and
  opens the window. Readings that are floating-point numbers pass through the library as they are;
  where a decision depends on one, the program hands over the whole number above or below it.
- `tests/` runs the library on examples.

What the proofs rest on without proof is marked in `src/encoding.rs` (decoding and lower case, from
the standard library), `src/json.rs` (`serde_json`), `src/export.rs` (`base64`) and `src/text.rs`
(`String::push`).
