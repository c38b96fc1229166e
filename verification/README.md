# lasangnabot

The command logic of a Discord music bot, verified with Verus.

- `src/` is the library. Each command's decision is a function from plain
  values (the message text, whether the author is in a voice channel, the
  texts of the favourites' data files, the metadata of queued tracks) to
  what the bot answers and what it does to the player. Its contracts state
  the exact answers; the laws about listings, paging and saved songs are
  proof functions beside them.
- `app/` runs the bot: it reads the guild's folders and the player, tests
  the conditions the library's functions require, calls them, and sends
  what they decided through serenity and songbird.
- `tests/` runs the library on concrete values.
