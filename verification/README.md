# owr_power

Verified control logic for the rover's power-distribution boards and drive-base ESC bridge,
written in Verus.

- `src/` is the library. Every function in it is verified, except three small trusted
  wrappers (`external_body`) around canadensis decoders and node-ID conversion, whose
  contracts are stated from the canadensis sources:
  - `power_hub`: channel state machine of the main power hub (active-low enable pins,
    latched faults), with laws about command sequences;
  - `compute_module`: rail switching, integer telemetry and over-current trips of the
    compute power module;
  - `conversions`: the fixed-point ADC conversions, with a monotonicity law;
  - `rail_stats`: running minimum, maximum and average of a rail voltage;
  - `status_leds`: colours of the hub's status LEDs and the compute module's status light;
  - `cyphal`: what each board does with the Cyphal transfers it receives;
  - `vesc`: start-up decisions of the ESC bridge.
- `app/` holds the board support: peripherals, pin driving, Cyphal nodes, superloops (main
  power hub, compute module, system power hub, bring-up), the ESC bridge's SocketCAN node and
  the floating-point thermistor temperatures.
- `tests/` exercises the library on concrete values.
