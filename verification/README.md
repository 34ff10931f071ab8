# airbus_systems

Aircraft systems of an Airbus A320 for a flight simulator, with the logic
that decides how electrical power flows through the aircraft proved correct
by Verus.

## Layout

- `src/` is the verified library.
  - `electrical/`: potentials and their origins, contactors and buses, the
    engine, APU and emergency generators, external power, batteries,
    transformer rectifiers, the static inverter, the battery charge limiter,
    the power supplied to each bus and the consumers drawing from it.
  - `a320/electrical.rs`: the A320 network, its overhead panel and the rules
    that open and close its contactors.
  - `overhead.rs`, `pneumatic.rs`, `landing_gear.rs`, `apu/`: push buttons,
    bleed valves, gear and the APU panels and air intake flap.
  - `shared.rs`, `simulation.rs`: timing, flight phases and the named values
    exchanged with the simulator.
- `tests/` exercises the library on concrete scenarios.
- `app/` is an executable around the library: the physical models that work
  in floating point (hydraulics, APU spool-up and temperatures, battery
  charge, measured potentials and loads, power demand), and one simulation
  tick that feeds them and the verified systems.

Durations are counted in whole nanoseconds. The library is generic over the
type of a raw electric potential, so that the application can use physical
units for it.

## Checking

`verus` verifies `src/`; the tests run as ordinary Rust tests against the
compiled library.
