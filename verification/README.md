# Bakery Text

A small horror game told through a bakery's three scrolling logs (焼成室,
売り場, 外). Lines arrive on each pane's own clock; the player marks the
焼成室 lines that break the day's rules with 削除 or 検印 and lets the rest
scroll away. Mistakes raise the corruption meter, which pulls the danger zone
inward until the run is lost.

Layout:

- `src/` is the game's rules as a Verus-verified library: the day clock,
  phases and panes, line generation and its weights, the rumor/rule ledger,
  the pending window each pane keeps, scoring of evicted lines, the meter and
  zone, the pause menu and the day indicator. Every public function carries a
  contract, and the cross-function properties stand as `law_*` proof
  functions. Randomness comes from `rand` through the wrappers in
  `src/chance.rs`, whose contracts claim only what holds of every draw.
- `tests/` runs the library on concrete values.
- `app/` is the Bevy program around it: windowing, input, text rendering,
  timers in real seconds and the screen flow.
