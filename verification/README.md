# streamsmith

One command turns a video into a ready-to-serve HLS adaptive-bitrate bundle,
with a built-in preview player.

- `src/` is the verified library: ladder planning, encoder choice and
  ffmpeg argument lists, the master playlist, failure reports, the preview
  server's routing and path checks, and the text of every progress line.
  Each public function states what it returns over `Seq<char>` models.
- `app/` is the command-line program around it: argument parsing, running
  `ffprobe`/`ffmpeg`, the worker threads, the HTTP server, the terminal, and
  the little floating-point arithmetic (frame rate, GOP, durations).
- `tests/` exercises the library on concrete values.

The preview server reads its page template and `hls.min.js` from an `assets`
directory beside the executable.
