# tilegame

A small turn-based game on a tile grid. A player (`@`) walks with `h` `j` `k`
`l`, opens and closes doors with `o` followed by a direction, and quits with
`q`; robots head for the player; actors that bump into each other fight.

- `src/` holds the rules, each function with a contract proved by Verus:
  `world` (tiles, doors, what blocks a cell), `actor` (taking back a move),
  `decide` (what an actor does this turn), `act` (carrying it out), `turn`
  (a round of turns as a step function that asks for keys), `update` (ending a
  round: separating actors, fights, removing the dead, trimming the log),
  `setup` (the starting map and player), `text` (log lines) and `laws`
  (properties that span several functions).
- `app/` is the terminal front end on ncurses: it draws the grid, reads keys
  and drives the rounds.
- `tests/` runs the rules on concrete games.
