# lumina_video

A video player's logic, verified with Verus: which frame is due, how audio and video are
kept together, when a frame may be shared with the graphics card, how a stream is opened,
sought and ended, and what a refresh of the screen does. Nothing here decodes or draws;
the modules decide, and say what is to be done.

## Layout

- `src/` — the verified library.
  - Time, text and counters: `time`, `text`, `wrapping`, `video`, `session`.
  - Audio: `audio`, `audio_ring_buffer`, `audio_player`.
  - Frames: `frame_queue`, `frame_scheduler` with `frame_selection` and the
    `scheduler_*` modules, `sync_metrics`.
  - Decoding: `decode_loop`, `decode_task`, `gst_pipeline`, `gst_decoder`, `gst_run`,
    `dmabuf`.
  - Presentation: `presentation`, `mailbox`, `android_import`, `linux_refresh`,
    `core_refresh`.
  - Players: `player`, `gpui_video_player`, `web_video`, `web_moq_url`, `demo`.
  - Downloads: `address`, `network`.
- `tests/` — tests of the library.
- `app/` — the program around it: clocks, threads, the network and the terminal.

## Conventions

Where outside work and decisions alternate, the decisions are a machine: it hands out an
action, is told what came of it, and hands out the next. Its contract relates the state
before and after each answer.

Laws that span several functions are public proof functions whose names begin with
`law_`.

Figures with a fraction stay outside: volumes are percentages, shares are pairs, and frame
rates travel as the bits of a float.
