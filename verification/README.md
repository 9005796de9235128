# ratcrate

A terminal crate manager for DJs who keep the same playlists mirrored across
several drives. A crate is a named set of folders meant to hold the same
content; each subfolder is a playlist and the files in it are its tracks.
Playlists carry tags and links to Tidal, Spotify or SoundCloud playlists.

## Layout

- `src/` is the library, written in Verus and verified: the application state
  and its key handling, the crate and playlist rules, the disk scan model, the
  service request machines (Spotify, SoundCloud, Tidal), the JSON model, and
  what every screen shows. Each public function states its result in its
  contract; the laws that relate several functions are public proof functions.
- `app/` is the program around it: the terminal, the disk, the network, audio
  and background threads. It performs the commands the library returns and
  hands the answers back.
- `tests/` runs the library on concrete values.

Verify with `verus` on `src/lib.rs`; the outside crates named in `Cargo.toml`
must be built and passed to it.
