# stockrs

A stock trading system for the Korean market: intraday strategies, a broker
that checks and sends their orders, the daily bookkeeping, the calendar
features of the prediction model, and the settings that drive them.

The library in `src/` is written in Verus and verified. Where a result
comes from a brokerage interface or a ledger, which the program supplies,
the contracts state what the library itself decides: which calls it makes
on which values, and what it does with each answer.

- `types`, `error` — orders, modes, timestamps, the error type; share
  quantities and price-change tests in fixed-point arithmetic (money in won,
  percentages in hundredths of a percent).
- `text` — digits, splitting, substring search, case folding.
- `clock` — `HH:MM:SS` schedules, special-day shifts, `YYYYMMDD[HHMM]`
  formatting, the trading session.
- `calendar` — date parsing and the weekday, month, quarter and seasonal
  features, with chrono behind three trusted calls.
- `config` — the settings, their environment overrides and their rules.
- `api`, `data_reader`, `replies` — the brokerage interface, the
  stored-data stand-in, and the reading of the brokerage's replies.
- `broker` — order checks, execution, and the pending-order queue.
- `db_manager` — which balance the daily overview records and the day's
  figures.
- `model` — the strategy interface and the joonwoo, minseop, dongwon and
  test strategies.
- `universe` — table names, trading-date lookup, candidate selection and the
  line lists read from files.
- `laws` — properties that span several functions.

`app/` is the program around the library: argument parsing, logging, the
settings file, the brokerage connection over the network, the SQLite
trading database, and the tick loop.
