# Orpheus

Monitors and switches the polling rates of gaming mice. The library under
`src/` is written in Verus: what each function returns, which reports go over
the wire and in which order, and what holds of the whole are stated in contracts
and proved. The program under `app/` is ordinary Rust around it: HID and process
access, the config file, the terminal and the window.

## Layout

- `text`, `bytes`, `table`, `error`: building blocks.
- `devices`, `models`, `reports`, `payloads`: rates, batteries, the catalog of
  mice, and the bytes of each report.
- `transport`: what a transport is. Its history is a *wire*: the requests made
  so far, and the answer to each.
- `courses`: for each operation, the wire after it and its outcome, as a
  function of the wire before it.
- `protocols`, `hid_device`: the operations themselves, proved to take these
  courses.
- `interfaces`, `probing`, `snapshots`: which interfaces are opened, what is made
  of their answers, and what is remembered of them.
- `config`, `process_rules`, `watcher`, `watch`: app rules, power policy and the
  rounds of the watcher.
- `tui`, `tui_text`, `gui`, `cli`: the states of the interfaces and their texts.
- `gwolves`: the G-Wolves catalog with reports of its own.
- `laws`, `device_laws`, `reading_laws`, `watch_laws`, `run_laws`: what holds
  across functions, over many rounds and over many scans, and what reading from a
  mouse never does.

## Use

```
orpheus                     # terminal
orpheus gui                 # window
orpheus list
orpheus set 8k
orpheus init-config
orpheus watch --config orpheus.toml --dry-run --once
```

```toml
default_rate = 1000
restore_rate = 1000
power_policy = "active-non-charging"

[[rules]]
exe = "problem-game.exe"
rate = 4000
restore = 1000
```

Rules are checked in file order, and the first one whose process runs wins.
Rates are written as numbers or as `"1k"`, `"8k"`. With
`power_policy = "first-device"` only the first mouse is switched, and only when
the wish changes; with `"active-non-charging"` every mouse is looked after: mice
that discharge get the rate of the rule, mice that charge stay at the idle rate,
and a change for a mouse that sleeps waits until it answers.

The window uses the Geist fonts where they lie under `assets/fonts`, and its
built-in ones elsewhere.
