# harper_desktop

The verified core of Harper's desktop overlay, which underlines grammar and
spelling lints over the text field the user is typing in and offers fixes in a
popup. Everything the overlay *decides* lives in `src/` and is proved with
Verus; reading the screen, drawing, and talking to the operating system is
left to the surrounding application.

- `offsets` — char offsets to UTF-16 offsets, with a per-read lookup table
  proved to agree with direct conversion.
- `window_stability` — withholding highlights while a window moves.
- `apply` — extracting a suggestion's replacement and the key events that
  type it.
- `app_search`, `display_name`, `broker` — application discovery, friendly
  names, settings search, and the brokers' platform-neutral answers.
- `popup`, `pacing` — the overlay's popup selection, hit-testing, and event
  loop pacing.
- `rects` — grouping UI Automation's flat bounding-rectangle arrays into quads.
- `supervisor`, `diagnostics`, `tray`, `startup`, `icon`, `dictionary`,
  `integration`, `logging` — the service around the overlay.
- `text`, `order` — character-sequence primitives and lexicographic order.

`app/` holds serialisable copies of the library's types, log files, the
monotonic clock, floating-point rectangles, and the broker glue that drives
the library's read steps between UI Automation reads.
