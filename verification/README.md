# cdp-client

A command-line client for the Chrome DevTools Protocol: it connects to a
Node.js (or Chrome) debugger and offers an interactive console, memory
sampling, CPU profiling and heap snapshots.

- `src/` is the verified library: the JSON model, how the target and its
  WebSocket URL are found, request framing and response matching, the
  console's reading of lines, the capture commands, and the heap snapshot
  collector. Every function there carries a contract that Verus proves.
- `app/` is the program around it: command-line parsing, HTTP and WebSocket
  traffic, JSON reading and writing with serde, files, timers and printing.
- `tests/` runs the library on concrete values.
