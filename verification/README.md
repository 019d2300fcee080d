# music_bot

The decision logic of a Discord music bot, verified with Verus.

- `src/` is the verified library: per-guild playlists (immediate queue, loop
  list, in-order or shuffled play), the replies of the slash commands, the
  assembly of the settings from the parsed configuration file, the decision to
  leave an emptied voice channel, the downloader fallback order and the paging
  of playlist fetches.
- `app/` is the bot itself: Discord and voice I/O through serenity and
  songbird, file and network access, and the event loop. It hands the library
  plain values and acts on what comes back.
- `tests/` runs the library on concrete values.
