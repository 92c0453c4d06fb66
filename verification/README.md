# impossible_bot

A Discord bot that runs a counting game: members take turns posting the next
number in a counting channel; a wrong number, or two numbers in a row from the
same member, restarts the count at one.

- `src/` is the verified library (Verus): the rules of the game
  (`counting`), the bookkeeping of counting channels, the slash-command
  definitions and routing (`commands`), the database records (`models`), the
  log-line layout (`logging`), decimal rendering (`decimal`), and the few
  computations taken from `serenity` (`discord`). Laws of the game are proved
  in `counting::laws`.
- `app/` is the program around it: the Discord client, MongoDB access,
  logger setup, and the serde copies of the records.
- `tests/` exercise the library on concrete values.
