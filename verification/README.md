# n3ds_controller

Lets Nintendo 3DS consoles act as Xbox 360 controllers on Linux. A console sends
its buttons and sticks in UDP datagrams; each console gets a virtual controller
of its own on the uinput interface of the kernel.

- `src/` is the library, verified with Verus. It reads datagrams (`packet`,
  `bytes`, `buttons`), turns a report into the events of a controller (`axis`,
  `controller`, `event`), lays out what the kernel is told (`codes`, `uinput`),
  keeps the clients and counts (`state`), takes a report through the steps that
  can fail (`update`) and reacts to what arrives (`server`). It does no input or
  output: it says what to do next and is told when that has succeeded.
- `app/` is the program around it: the socket, the devices, the clock and the
  messages.
- `tests/` run the library on concrete values.
