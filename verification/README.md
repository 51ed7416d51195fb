# auto-scanner-ocr

A terminal interface for flatbed scanners that SANE knows: it captures pages,
cleans, turns, crops and orders them, and builds searchable PDFs with OCRmyPDF
and Tesseract.

- `src/` is the library. It decides what the configuration and the command
  line mean, which programs run with which arguments, what their output says,
  how a session goes on when its jobs end, how the interface answers keys and
  the mouse, and what stands on the screen. All of it is verified with Verus.
  `session/model.rs` and `tui/model.rs` say what a session and the
  interface are; the `laws.rs` beside them say what always holds of them.
- `app/` is the program around the library: files, processes, the terminal.
  What is computed with floating point is decided there too: the grid of the
  contact sheet, the scale of images, and the pixel under a cell of the
  terminal.
- `tests/` runs the library.

The library waits for nothing and touches nothing. Where something has to be
done, it hands out an effect or an action, and takes the outcome back as a plain
value. Functions of other crates that it calls (image decoding, regular
expressions, path expansion, the split of the screen) stand behind small
wrappers whose doc comments say what is taken on trust.
