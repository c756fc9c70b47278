# maistats

Verified core of maistats: the tools that collect maimai DX NET play records, build the
shared song database and answer Discord commands about scores.

The library (`src/`) is written in Verus; every function there carries a contract that the
verifier checks, and the laws of the library are stated and proved as proof functions named
`law_*`.

- `models`: game terms (chart types, difficulties, ranks, versions, genres), song titles,
  versions of the record collector, the song data file and the shapes of API answers.
- `parsers`: readers of the maimai DX NET pages (scores, player data, rating targets,
  play details, internal-level pages) over the selections that `scraper` makes.
- `auth`: the decisions of the SEGA ID login (which form to post, whether a page means a
  lost session).
- `songdb`: the song database: official song rows and charts, internal levels from the
  community spreadsheets, user tiers, aliases, versions of the international charts, and
  the song data file built from them.
- `backend`: settings, errors and responses of the record collector, and the decisions of
  its start-up sync, its periodic poll and its daily song-database update.
- `bot`, `discord`: the texts and decisions of the two Discord bots (title search, song
  cards, recent plays, the up/down chart game, ratings, the day summary).
- `assoc`, `text`, `urls`: association lists, text helpers and address helpers.

Outside crates are reached through a few trusted wrappers, each with a doc comment that
says what it assumes of the crate.

`app/` is the command-line song database builder: it reads the environment, fetches the
song list, the internal-level sheets and the covers, and writes `data.json`.

`tests/` exercises the library on concrete values.
