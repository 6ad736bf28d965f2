# KeyEcho

KeyEcho plays a keyboard sound for every key you type. This crate is its
core, written in Verus: its functions in `src/` are verified against their
contracts, except a few small trusted wrappers (marked
`#[verifier::external_body]`) around calls into std, `url`, `tar` and
`plist`, whose contracts are assumed.

## Layout

- `src/keys.rs`: the keys and key events, their numeric ids and the names
  sound packs use (`Fn` is read as `Function`).
- `src/platform/`: the key-code tables of Linux (X11 key codes), Windows
  (virtual-key codes) and macOS (CGEvent key codes), and how each platform's
  raw events become key events; on macOS, modifier keys are tracked left and
  right separately.
- `src/gate.rs`: each held key plays once however long it auto-repeats, and
  its release plays only after that press.
- `src/sound.rs`: sound-pack planning: legacy millisecond slices to frames,
  which distinct slices to decode for which events, slice sample ranges,
  fade lengths, resampled lengths, and the memory budgets.
- `src/soundpack.rs`: the installed-pack list (names stay unique) and moving
  stored pack paths to a new data directory.
- `src/url.rs`, `src/archive.rs`: where packs may be downloaded from, which
  links may be opened, what a downloaded pack is called, and the size, entry
  type and path checks on pack archives.
- `src/updater.rs`: the update prompt and its release-note highlights.
- `src/echo.rs`: audition pacing, the audio queue bound, output reopening
  and the playback cursor.
- `src/autostart.rs`: the login-item launch agent's bundle attribution.
- `src/ui.rs`: window labels, tray menu ids, the dashboard's close/exit
  handling and deep links among a second instance's arguments.
- `src/paths.rs`, `src/text.rs`: path and string helpers the rest builds on.

Laws that span several calls are public proof functions next to the code
they speak of (names starting with `lemma_`).

`app/` is the desktop application around the library: windows, tray, audio
output, keyboard hooks, decoding and resampling, files and network.
