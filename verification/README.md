# System Recorder

A Windows audio recorder. It records a microphone, everything that an output
endpoint plays, or what a single program plays (Windows 10 build 20348 or later),
and saves it as a WAV file.

- `src/` is the library, verified with Verus: formats and packets, the course of a
  recording and of a process loopback activation, device and session lists, file
  names and paths, the configuration, the sound enhancement chain, and the state of
  the window. Every function states what it returns; the `law_*` proof functions
  state what holds across functions.
- `app/` is the program around it: the window, the calls into WASAPI, the WAV
  writer, the configuration file, and the arithmetic on samples.
- `tests/` runs the library on concrete values.

The library makes no calls into Windows. A recording is a state machine
(`run::CaptureRun`): each phase names the next call, `app/` makes it and hands its
outcome back. Floating-point numbers are held by their bits (`single::Single`).
