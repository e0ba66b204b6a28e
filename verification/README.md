# lpc55_gpio

GPIO pin drivers for the NXP LPC55 microcontrollers, verified with Verus.

- `src/gpio.rs`: pins (`Bank`, `Level`, `Pull`, `AnyPin`, the `Pin` trait) and
  the `Flex`, `Output` and `Input` drivers. A driver decides which register
  accesses configure, drive or read its pin and returns them as `RegWrite`
  values; reads take the word read from the bank's `PIN` register.
- `src/sealed.rs`: the private supertrait that seals `Pin`.
- `src/regs.rs`: the `RegWrite` accesses and `GpioModel`, an abstract view of
  the GPIO direction and output words, the IOCON pin registers and
  `AHBCLKCTRL0`, with what each access does to it.
- `src/laws.rs`: what the drivers' accesses do, proved over the model: each
  operation changes its own pin only, `Output::new` leaves the pin a digital
  output at the initial level, `Input::new` a digital input with the pull,
  toggling twice restores the registers, and so on.
- `app/`: performs the accesses on the memory-mapped registers through
  `lpc55-pac` and wraps the drivers around `embassy-hal-internal` peripherals.
