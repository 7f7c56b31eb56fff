# spoticord

A Discord music bot that plays from one Spotify account, with its logic
written in Verus and proved against its contracts.

- `src/` is the verified library: configuration defaults, the playback
  information of the loaded track, the player's command and event handling,
  the session registry, reading Spotify's JSON responses, the Spotify Web
  API client's requests and token life cycle, the authorization redirect, QR code rendering
  and the replies of the music commands. Calls into `serde_json`, `urlencoding`,
  `base64`, `url`, `qrcode`, `image` and `serenity` stand behind small trusted wrappers
  whose contracts are stated in their doc comments.
- `tests/` runs the library on concrete values.
- `app/` is the bot around it: Discord (serenity, poise, songbird), Spotify
  Connect (librespot), HTTP, files and the event loops.
