# moonshine

Screen capture for a game streaming host on wlroots compositors, with the logic
verified by Verus.

- `src/` is the library. It holds the state of a capture and decides: which
  globals and which output to use, when to ask for a frame, into which buffer it
  goes, what becomes of it, how input is passed on, how long a frame lasts, and
  where a captured image goes inside the stream. Every function has a contract,
  and the `law_` functions state what holds of several functions together.
- `app/` talks to the compositor over Wayland and to the GPU over Vulkan. It
  performs what the library decides and hands back what came of it.
- `tests/` runs the library on concrete values.

The scaling of images and the frame interval are defined by double-precision
arithmetic. The module `binary64` computes them with integers and the rounding of
IEEE 754; the tests compare the results with `f64` and with
`Duration::from_secs_f64`.
