# ramsleuth_gui

The verified core of the RamSleuth desktop dashboard: the decisions the
dashboard makes and the texts it shows, as Verus-verified Rust, with the
window itself a thin eframe shell around it.

- `src/` — the library, verified by Verus:
  - `history` — the fixed-capacity ring buffer, and the three trend series kept in lockstep;
  - `telemetry` — the memory-controller matrix (vendor blocks, six sections, cell colours);
  - `header` — the header's CPU and RAM lines and the mode segment;
  - `status` — the SPD cards, the daemon status line and colors;
  - `bench` — the benchmark zone's run state, status line, cell colors and commands;
  - `first_run` — the first-run requirements, the setup wizard and the helper's command line;
  - `shell` — the command line, the probe-report flow, the issue URL, the setup
    outcome, the per-frame action dispatch, the dialogs' click step, the graphs window's refresh lifecycle;
  - `graph` — the sample ring, the hwmon choice, the time windows, the poll combo;
  - `calendar` — epoch seconds as a UTC wall clock;
  - `card` / `png_io` — the F2 snapshot card's pixels and PNG encoding, the icon decoding;
  - `export` — which file F2 / F3 write; `error` — their failures;
  - `settings`, `style`, `model`, `text` — the knobs, the palette, the wire facts the
    decisions read, and the text building blocks.
- `tests/` — the library's tests.
- `app/` — the eframe window, the daemon poller, file writes, helper processes, and the
  fractional-figure formatting (clocks, capacities, bandwidths, the graph rows).
