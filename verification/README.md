# peak

A terminal tool to navigate Git branches, switch between them and delete
them. The decisions of the program are a verified Verus library under `src/`;
`app/main.rs` runs the terminal, reads and changes the repository with `git2`,
and draws the screen with `ratatui`.

- `src/app.rs`: the application state, its mathematical view, and what every
  event does to it (`App::handle_event`) and what reading, deleting and
  checking out do after it.
- `src/checkout.rs`: the steps of checking out a branch and the alerts that a
  failing step leaves.
- `src/filter.rs`, `src/order.rs`: case-insensitive filtering of branch names,
  and the stable newest-first order of branches.
- `src/screen.rs`, `src/widgets.rs`, `src/utils.rs`: what the screen shows.
- `src/laws.rs`: properties across operations, proved.
- `src/foreign.rs`: the calls into std, chrono, crossterm and ratatui, with the
  contracts they are trusted to meet.
