# platform

Board support for the Firestorm board (SAM4L), verified with Verus.

- `src/memory.rs`: what the reset handler does to memory before `main`:
  copy the initialised data image from flash into RAM, clear the
  zero-initialised section, and the span of memory this touches.
- `src/board.rs`: how the board wires the chip: console settings, the
  pins handed to SPI, USART3 and I2C, the GPIO driver's pins, the TMP006
  sensor, the panic LED.
- `src/platform.rs`: the board's drivers, reached by number.
- `src/blink.rs`: the panic loop's LED schedule, one step at a time.
- `app/`: the hardware side: the interrupt vector table, the reset
  handler, the board's initialisation and the panic handler.
