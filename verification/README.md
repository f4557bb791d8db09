# osc_bot

A Discord bot for an osu! replay community: members save links to their
skins, suggest scores for upload, admins keep a blacklist, and new uploads of
the channel's YouTube feed are announced.

- `src/` is the verified library (Verus): the texts and colours of every
  answer, the score embed, decimal rendering, the skin link rule, the
  suggestion parameters and buttons, the YouTube feed scanner and upload
  bookkeeping, the Firebase paths, the skin table rules with the proof,
  over a model of the skin table (its rows as a sequence, with unique ids),
  that the planned writes keep every user at most one skin per default, and the score
  suggestion, skin and blacklist commands as state machines whose runs are
  proved to write only what the command allows, and the guard that keeps
  replay files whose header lengths cannot be decoded away from the replay
  parser.
- `tests/` runs the library on concrete values.
- `app/` is the bot itself (Discord, osu! API, SQLite, Firebase, HTTP), which
  performs the I/O and asks the library what to do. Its SQL statements carry
  out the planned writes; nothing verifies that they act on the database as
  the table model says.
- Saving a skin under a name the member already uses replaces that skin:
  the lookup goes by the member's user record, under which skins are stored.
