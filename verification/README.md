# p2p_claude_daemon

A daemon that lets remote clients drive one shared command-line coding
session over a WebRTC data channel, paired through a signaling server.

- `src/` is the verified library (Verus): the message protocol, pairing codes
  and allowed clients, the path guard of the file service, the session state
  machine, the signaling decisions, the WebRTC state mapping and media buffers.
- `app/` is the daemon program around it: configuration file, file I/O, the
  pseudo-terminal process, the WebSocket and WebRTC plumbing and the event loop.
- `tests/` exercises the library on concrete values.
