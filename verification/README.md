# cs2_buttplug

Lets what happens in a Counter-Strike match drive haptic devices through a buttplug.io server.

- `src/` is the library: everything that decides, verified with Verus.
  - `level`: speeds and positions, as the bit patterns of binary64 numbers.
  - `buttplug`: commands, and the messages that a command sends to a list of devices.
  - `session`: the session with the device server, step by step.
  - `config`, `decimal`: the settings and how they are stored.
  - `ui`, `game`, `log`: the state behind the window and what it shows.
  - `tasks`: the order in which the program is started and taken down.
  - `laws`: what holds of these as a whole.
- `app/` is the program: network, game server, window.
- `tests/` runs the library on concrete values.

The library decides and the program acts: `Session::step`, `Stage::turn` and the methods of
`CsButtplugUi` say what is to be done, the program does it and hands back how it went.
