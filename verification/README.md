# gor

A GitHub command-line client whose logic is verified with Verus.

- `src/` is the library, verified: API paths and request bodies, the
  filters and tables of every command, date, count and size formatting,
  the configuration and token stores, the device-flow polling decisions,
  and the step functions that say, reply by reply, what a command sends
  next and what it prints or fails with. Laws that span functions stand
  there as public proof functions (`law_*`).
- `app/` is the program around it: command-line parsing, HTTP, files,
  the terminal and the browser. It hands the library plain values and
  carries out the steps the library decides.
- `tests/` runs the library on concrete inputs.
