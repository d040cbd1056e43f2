# alluno_gamepad_sys

Virtual Xbox 360 controllers through a ViGEmBus-compatible bus driver, with
the protocol verified in Verus.

- `src/` is the verified library. It performs no I/O: it encodes the bus
  driver's I/O control requests (`protocol`, `wire`, `report`), splits the
  configuration manager's interface list (`paths`), and decides every step of
  finding the bus (`bus`), plugging a controller in and operating it
  (`target`), and setting a controller up (`device`). Each step names the next
  piece of operating-system work as an `Action`; the caller performs it and
  hands back `Ok(())` or the `HRESULT` of the failure.
- `app/` is the Windows backend around it: the device and event handles,
  `DeviceIoControl`, the configuration-manager calls, the notification thread,
  `Display` for errors, and the stick-sweeping demo.
- `tests/` drive the protocol with scripted outcomes.

Run `cargo test` for the tests; the backend in `app/` builds on Windows only.

Only the wired Xbox 360 controller is supported: there is no `with_kind`,
no `kind()` and no DualShock 4 controller, and `GamepadKind` is not used by
the protocol. There is no Linux (uinput) backend either.
