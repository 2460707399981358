# apple_music_rpc

Shows the song playing in Apple Music as a Discord "listening" presence.

- `src/` is the verified library: cleaning the player's metadata (`song`),
  reading the player's report (`player`), the iTunes search and the choice of
  a result (`itunes`, `fetch`), the bounded cache of results (`cache`), when
  the presence is refreshed and what it shows (`presence`), and the text
  operations these rest on (`text`).
- `app/` is the program around it: the tray icon, the listeners of the
  player on macOS and Windows, the HTTP requests and the Discord IPC link.
