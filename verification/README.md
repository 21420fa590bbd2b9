# clicker

The verified core of a clicker game backend, written in Verus.

Players earn coins by clicking and by automatic income, buy upgrades that
raise either, send coins to each other, run partner services that pay
players, and stake coins in timed raffles.

- `src/` is the library, verified by Verus:
  - `decimal` — decimal text of integers, written and read as the standard
    library does;
  - `error` — refusals and their statuses;
  - `config` — records and the catalogue of upgrades;
  - `helpers` — rate limiting, earning, purchases, leaderboard, transfers,
    bearer tokens;
  - `services` — partner services and the history limit of a path;
  - `ws` — the socket handshake and the raffle (winner, payout, stakes,
    timer).
- `tests/` runs the library on concrete values.
- `app/` is the server: routes, PostgreSQL, Redis, the background
  synchronisation and the raffle timer, around the library's decisions.
