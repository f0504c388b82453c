# rsgewatch

A RuneScape 3 / Old School RuneScape Grand Exchange investment tracker with
price refreshes, summary schedules, price alerts and Telegram notifications.

The logic is a Verus-verified library under `src/`:

- `calculations` — profit/loss, holding days and portfolio statistics;
- `refresh`, `prices`, `json` — which prices to fetch, the request URLs, and
  how the exchange's and the catalogue's responses are read and applied;
- `schedule`, `scheduler` — when a summary schedule is due, which alert rules
  apply to which investments and when they trigger;
- `forms`, `app_flow`, `settings`, `telegram` — what the user interface does
  with what was typed and clicked;
- `text`, `widgets`, `clock`, `icon`, `known_items` — string handling, amount
  formatting, calendar conversions (through `chrono`), the drawn icon, and the
  built-in item list.

`app/` holds the desktop program around it: the window, the tray, storage,
HTTP, the background task, and the floating-point percentages.
