# sysnotify

The decision logic of a small Linux desktop daemon that turns battery
readings, `nmcli monitor` lines and udev device events into desktop
notifications, verified with Verus.

- `src/` is the verified library: text handling (`text`), the battery report
  (`battery`), network status lines (`network`), the device event model
  (`device`), the udev handler and watched devices (`udev`), the stand-alone
  listener (`listener`), D-Bus messages (`dbus`) and notification requests
  (`notification`).
- `app/` is the daemon around it: file, process, D-Bus and udev I/O, the
  floating-point time estimate, and showing notifications with `notify-rust`.
- `tests/` runs the library on concrete inputs.
