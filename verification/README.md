# Tashi Vertex bindings

`src/` is the verified library:

- `options`: the settings the engine is started with, their documented defaults, the engine's
  own defaults for the others (read from the engine by `app/`), and the laws that a setting
  reads back what was written, through any later writes to other settings;
- `message`: decoding what the engine's receive callback reports into a `Message`;
- `socket`: decoding what the engine's bind callback reports into a `Socket`;
- `handoff`: the state shared between a future and the native callback that completes it,
  with the decisions of each poll and of the callback, and the laws over any run of polls and
  deliveries.

`app/` holds the native side: the `extern "C"` declarations, the reading of the engine's defaults, the
conversion of the chosen settings into a native options container, `Engine::start`, and the futures of a receive and of a bind, which
lock the shared state, call into the engine and wake the task as the library decides.
