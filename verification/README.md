# movie_bot

A Discord bot that keeps shared movie watch-lists in MySQL and looks movies
up on OMDb. The library in `src/` is verified with Verus; `app/` is the bot
program around it.

- `src/text.rs` — white space, decimal numerals, `u32` parsing, quote removal.
- `src/tokens.rs` — the grammar of command lines (quoted phrases and words)
  and its laws.
- `src/utils.rs` — splitting a command line, IMDb ids and addresses, the
  movie card and the help card.
- `src/movie.rs` — movies and movie lists, with their laws.
- `src/http.rs` — OMDb request addresses and the reading of replies.
- `src/db.rs` — the SQL statements, one table per list.
- `src/commands.rs` — each chat command as a state machine that asks for
  outside work one effect at a time, with laws about how commands end.
- `app/` — the Discord client, the database and web calls, and JSON/table
  output of movie types.
