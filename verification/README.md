# slider_hid

Drives rhythm-game slider controllers: seven models, six over USB and one over
a serial port.

- `src/` is the library, verified with Verus.
  - `state`: what the player touches and what the lights show.
  - `buffer`: the byte buffers of reports and LED packets.
  - `reports`: input reports into touched cells, air sensors and buttons.
  - `leds`: lights into LED packets.
  - `serial`: the framed serial protocol; `framing` proves what it guarantees.
  - `config`: the models; `connect`: connecting to one of them, step by step.
  - `hid`: the job that serves a slider; `ticks` rehearses a tick with given
    outcomes and proves what it comes to.
- `app/` carries out what the job decides, with `rusb` and `serialport`.
- `tests/` runs the library on given values.
