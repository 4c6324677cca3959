# luabutt

The verified core of a Lua module that lets a game drive vibrating devices
through a Buttplug server.

- `src/` is the library, verified with Verus:
  - `compare`: generic `min`, `max`, `clamp`, and their laws (ties keep the
    first argument, symmetry and order of `min`/`max`, clamping stays in
    range, is idempotent, fixes exactly the range and is monotone);
  - `effect`: timed effects (static, linear decay, linear ramp, square wave),
    when they end and what they contribute on a tick;
  - `controller`: the loop's state (base strength, last strength sent,
    running effects), command handling, the command part of a tick (commands
    in turn up to a shutdown, then pruning of finished effects), and the
    per-tick decision; laws on new effects, stopping, ordering and the range
    of the base strength;
  - `events`, `messaging`: the answers to server events, to a connection
    attempt and to queueing requests;
  - `address`: the websocket address of the local server, with the law that
    the port numeral reads back as the port.
- `app/` is the Lua module itself: Lua bindings, the tokio runtime and
  command channel, the async loop that talks to the server, and the
  floating-point arithmetic on strengths.
- `tests/` exercises the library on concrete values.
