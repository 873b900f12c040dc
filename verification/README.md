# phase4

The verified core of the Phase4 real-time audio analysis engine.

- `src/` is the library, written in Verus: the shared frame region layout
  and its sequence lock, the per-byte MIDI clock and transport decision
  (which effect each status byte has; what the effects do to the step
  count and the transport counters is proved on a plain-value model of
  those counters, while the running engine applies the same verified
  decision to atomics, whose stored values are not part of what is
  proved), buffer
  sizing and channel selection, configuration resolution and validation,
  error classification for the startup and headless event streams, the link
  contract of the engine service, and the decisions taken by the mapper, the
  WebSocket server, the OSC sender, the recorder and the worker shutdown.
  Floating-point values cross the library as `f32` bit patterns.
- `tests/` exercises the library from outside.
- `app/` is the program around it: command line parsing, `config.yaml`
  loading, audio and MIDI drivers, the floating-point filter bank, and the
  threads and sockets that carry out the library's decisions.
