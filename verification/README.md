# nih_plug_slint

A Slint user interface inside an NIH-plug plugin window, with the window's
decisions verified by Verus.

- `src/` (verified): the persisted editor state (`editor_state`), the editor's
  size and the window it opens (`editor`), the resize queue (`resize_queue`),
  the state of an open window with resize, host size reports, cursor and
  first-frame handling (`handler`), event and key routing (`events`), the
  render-on-change decision (`redraw`), renderer and adapter
  decisions and OpenGL address checks (`platform`), and the properties that
  span these operations (`laws`).
- `app/`: the NIH-plug `Editor`, the baseview window handler, the Slint
  platform and window adapter and the OpenGL loader, which perform the
  windowing, rendering and host calls around the library's decisions. The
  scale factor and pointer coordinates are `f32`/`f64` values and stay there;
  the library carries the scale factor as its bit pattern.
- `tests/`: tests of the library on concrete values.
