# stm32f3_adc

Driver of the analog to digital converters of the STM32F303, with its
decisions verified by Verus.

- `src/config.rs`: sampling times, clock modes, data alignment and their
  register codes; clock checks and wait lengths.
- `src/regs.rs`: the register map (fields, read-modify-write updates) and the
  laws of field writes: a read gives back what a write wrote, and a write
  leaves the other fields alone.
- `src/control.rs`: the driver's procedures (start-up, one-shot set-up,
  conversion, release) as a state machine that, from the value of the last
  register read, decides the next bus operation.
- `src/laws.rs`: properties of that state machine, proved.
- `src/adc.rs`: `Adc`, the converter that owns its peripheral and its
  controller.
- `app/`: carries the bus operations out on the device registers
  (`stm32f3` crate), busy-waits with `cortex-m`, and implements the
  `embedded-hal` one-shot interface.
