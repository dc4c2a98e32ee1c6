# yt_music_tauri

The verified core of an unofficial YouTube Music desktop wrapper (WebView2 +
Discord Rich Presence), written in Verus.

- `src/text.rs`: Unicode white space, trimming, ASCII lower-casing,
  whitespace-separated words, decimal numbers and UTF-16, each with its
  mathematical definition.
- `src/presence.rs`: track metadata from the page's track probe, window
  titles, Rich Presence text cleaning and the Discord client id.
- `src/discord.rs`: the activity published for a track, the presence
  worker's decisions, and the controller that hands tracks to the worker.
- `src/media.rs`: taskbar thumbnail buttons, tooltips, window messages and
  the remembered track.
- `src/shell.rs`: browser arguments, the page initialization script, launch
  mode, navigation, new windows, titles and close requests.
- `src/controls.rs`: menus, shortcuts, status texts and startup settings.
- `src/adblock.rs`: the ad-block switch and the network-level URL policy.
- `app/`: the program around the library: settings file, JSON decoding of
  probe messages, the Discord IPC worker thread, icon drawing and the
  Windows taskbar toolbar. The Tauri window shell (window, webview hooks,
  menus and tray) is not part of this crate; `src/shell.rs` and
  `src/controls.rs` hold its decisions.
