# recipe_app

A web application for keeping family recipes, planning meals on a calendar
and building the shopping list for the planned meals.

- `src/` is the library, verified with Verus: the data model, recipe and
  account validation, quotas, the steps of planning a meal and of logging in,
  the CSRF decision, rate-limit keys, the reading and writing of stored rows
  (dates, slots, the JSON of a recipe's steps) and the unit rules and
  grouping behind the shopping list. Calls into argon2, chrono, serde_json,
  validator and std's Unicode tables go through small trusted wrappers whose
  contracts are stated next to them.
- `app/` is the server around it: axum routing and handlers, sessions, rate
  limiting, SQLite access with sqlx, and the floating-point sums and roundings
  of the shopping list.
- `tests/` exercises the library on concrete values.
