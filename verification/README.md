# lemnos-linux

The Linux backend of Lemnos: discovery of GPIO, LED, PWM, hwmon, I2C, SPI,
UART and USB devices from sysfs, and the rules of the transports that talk to
them. The library in `src/` is written in Verus; every function carries a
contract and is proved against it.

## Layout

- `src/paths.rs`, `src/config.rs`, `src/backend.rs`: the sysfs and `/dev`
  layout, the transport settings, and the backend value.
- `src/descriptor.rs` and the `*_discovery.rs` modules: the descriptors each
  probe builds from what it read of sysfs, and the walks over a probe's
  entries; `src/discovery.rs` holds the probes themselves.
- `src/targets.rs`: which descriptors each transport serves, and where their
  device nodes are.
- `src/gpio.rs`, `src/cdev.rs`, `src/pwm.rs`, `src/i2c.rs`, `src/spi.rs`,
  `src/uart.rs`, `src/usb.rs`, `src/session.rs`, `src/errors.rs`: request
  checks, attribute encodings, configuration plans and read-backs, SMBus
  fallbacks, and how operating-system failures are reported.
- `src/hotplug.rs`: the watch table of the hotplug watcher and how a batch of
  inotify events is summarized.
- `src/annotations.rs`, `src/configured.rs`: the rules the derive macros
  enforce on their inputs: names, field annotations, and the validation of a
  configured device as a whole.
- `app/`: the operating-system side, unverified: reading sysfs into the facts
  the probes take, attribute writes, the device crates (`gpio-cdev`, `i2cdev`,
  `spidev`, `serialport`, `rusb`) and inotify.
- `tests/`: tests of the library on concrete values.
