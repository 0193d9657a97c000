# embassy-esp32c3

The time driver and interrupt-controller logic of the embassy async runtime
on the ESP32-C3, as a Verus-verified library.

- `src/` — the verified library:
  - `driver`: the three system-timer alarms (allocation, callbacks, setting
    an alarm, handling a comparator interrupt) and the routing of the
    comparator interrupts;
  - `interrupt`: CPU interrupt lines, priorities, trap routing and the bit
    arithmetic of the interrupt controller's registers; the software
    interrupt `SW_INT1`;
  - `systimer`: splitting alarm times into comparator words and reading the
    counter back;
  - `mutex`: the lock state machine behind the async mutex;
  - `config`: start-up configuration.
- `app/` — the hardware side: register reads and writes through the
  `esp32c3` peripheral access crate, the trap entry, critical sections, the
  time-driver entry points and the async mutex.
- `tests/` — tests of the library.
