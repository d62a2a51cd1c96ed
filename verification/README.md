# tuner

A terminal instrument tuner. The library in `src/` holds the tuner's
decisions, each proved with Verus:

- `app` — the interface state (device, channel, algorithm, mode, string,
  active row) and its transitions; each returns the `Action` the program
  has to carry out. Laws: every transition keeps the state consistent,
  forward and backward steps undo each other, the channel steps visit every
  channel of the device.
- `audio` — channel modes and how interleaved samples become one signal.
- `pitch` — algorithms, the sample buffer, and the lag and bin windows the
  detectors search.
- `note`, `presets` — note names and octaves of MIDI numbers, the preset
  tunings, and the choice of the string nearest to a pitch.
- `meter`, `screen`, `view`, `text` — where things go on the screen and what
  text they show.

`app/` is the program around it: audio capture (cpal), the pitch detectors
and smoothing (floating point, rustfft), the terminal (crossterm, ratatui)
and the command line (clap).
