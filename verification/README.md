# efr32_rail

Driver for the radio of the EFR32MG22, on top of Silicon Labs' RAIL library, with its
logic verified by Verus.

- `src/` is the verified library. It makes no call into RAIL and touches no register.
  Everything the radio can be asked to do is an operation: a value that names the next
  call to make and goes on from the reply. Contracts say which calls are made with which
  arguments, in which order, and what comes out; proof functions whose names begin with
  `law_` state what holds of whole runs.
- `app/` is the program around it: it makes the calls, writes the registers, and holds a demo that
  sends a packet when a button is pressed and logs packets that arrive. Logging, through
  defmt, is on in builds with `--cfg defmt_logging`. The library and the program use the
  standard library (strings, the panic hook), so for now the program is only type-checked
  on a host: it does not build for the chip as it stands.
- `extras/rail_shim.c` gives the program what only a C compiler can read in RAIL's
  headers: the values of macros, and calls that take structs.
- `tests/` runs the operations against replies written down by hand.
