# heater_dac

Verified logic of a heater control board: DACx578 digital-to-analog converters
and INA233 power monitors on I2C, driven by firmware tasks and a USB serial
console.

- `src/` is the library, verified with Verus:
  - `dac`: the DACx578 command, register and configuration encodings;
  - `registers`, `ina233`: the INA233 registers, address pins, driver
    configuration and start-up protocol;
  - `console`, `commands`: the serial console's line editor and command routing;
  - `dac_task`, `report_task`: the firmware tasks as state machines;
  - `dac_runs`: laws over runs of the DAC task (one answer per command,
    readiness only after a full start-up);
  - `telemetry`: the measurement line sent to the host;
  - `addresses`, `bits`: a bounded address list and bit-level facts.
- `app/` carries out what the library decides: the I2C transfers, the
  floating-point unit conversions, the command parser and the async loops.
- `tests/` exercises the library on concrete values.
