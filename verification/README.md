# emu_8080

An Intel 8080 emulator whose processor core is verified with Verus.

- `src/` is the library. Each instruction has a contract stated over an
  abstract model of the processor (`StateView`: registers, flags, program
  counter, stack pointer, memory as a sequence of bytes, interrupt and halt
  state, and a state count). The decoder, the dispatcher, the step of the
  processor, the state builder, the port logic of the Space Invaders and
  Boot Hill arcade machines, and the frame renderer are verified against
  their contracts too. Public proof functions state the laws of the
  instruction set, such as POP undoing PUSH or RET undoing CALL.
- `tests/` holds the tests, run against the compiled library.
- `app/` is the program around the library: the window, keyboard, sound
  and file loading, and the main loop.
