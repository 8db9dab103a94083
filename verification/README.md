# battery_up

Measures how long a machine has been running on its battery alone.

Time counts only while a battery reports `Discharging` and no `Mains` or `USB`
source is online. A session can be measured in a terminal, or a daemon
accumulates the time in a state file that `status` and a panel applet show. A
battery that is charged to 95 % starts the counters over, and so does a start of
the daemon.

## Layout

- `src/` is the library, verified with Verus: the rules for counting, the format
  of the state file, the command line and everything that is drawn.
  - `supply` turns the files of the power supplies into a snapshot.
  - `state` moves from one state to the next; `daemon` runs it over time.
  - `state_file` writes and reads the state.
  - `drain`, `style`, `sections`, `cards`, `json` and `screen` draw it.
  - `args` reads the command line, `applet` is the model of the panel applet.
  - `text` holds what the others need of strings, `clock` reads the time.
- `tests/` runs the library on concrete values.
- `app/` is the program around it: files, signals, sleeping, the terminal, the
  local time zone and the floating point figures. `app/bin/` holds the applet for
  the COSMIC panel, which is built as a program of its own.

## Trusted

Three functions are called without proof. `String::push` and `unicode_width`'s
column count stand behind stated contracts. Nothing is claimed of the time since
the epoch: what follows from it is proved for every reading of the clock.
