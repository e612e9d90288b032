# pg_sdl

A small widget toolkit for SDL applications, with its logic verified by Verus.

- `src/` is the verified library: key and mouse state tracking, event
  handling, alignment, rectangle geometry, circle rasterisation, text
  placement, the font list parser, the grid decisions of the camera, and the
  behaviour of buttons, switches, sliders and text inputs. Each public
  function states what it returns in its contract; the `lemma_*` proof
  functions state the laws that hold across calls.
- `app/` is the unverified shell around it: the SDL event loop, drawing,
  font loading, colours in floating point, and the camera's floating-point
  transforms. It converts SDL's values to the library's plain types and back.
- `tests/` runs the library on concrete values.
