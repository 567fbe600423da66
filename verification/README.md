# omnibox

A Windows toolbox (launcher, file hiding, system tweaks, a multi-threaded
downloader, a hardware and system report with privacy redaction, a Markdown
helper and a browser-session helper) whose logic is written in Verus and
proved against its contracts.

## Layout

- `src/` — the verified library. Every decision the application makes lives
  here as a function with `requires`/`ensures`, together with the laws that
  relate several functions (public `proof fn`s named `lemma_*`):
  - `downloader/` — URL decomposition, file-name choice, chunk planning,
    resume ranges, progress bookkeeping and the speed estimator;
  - `sysinfo/` — decoding of the Windows structures behind the report
    (CPU, memory, storage, network, battery, devices, GPUs, displays,
    processes), each value carried as a `MetricValue` with its quality;
  - `report.rs`, `sanitizer.rs` — the JSON report and its redaction of
    identity fields, user paths, MAC and IP addresses;
  - `settings.rs`, `launch.rs`, `cloaker.rs`, `tweaks.rs`, `unrestrict.rs`,
    `tools.rs`, `markdown.rs`, `session.rs` — the remaining features;
  - `text.rs`, `strs.rs`, `numparse.rs`, `bytes.rs` — string, number and byte
    helpers with their specifications.
- `tests/` — tests of the library on concrete values.
- `app/` — the Tauri application around the library: commands, Win32 and
  WinHTTP calls, threads, files and the serde copies of the library's types.

Outside crates reached from `src/` (`serde_json`, `sha2`, `base64`) and the
clock are called through small trusted wrappers whose doc comments say what
each claims of the outside code.
