# LinMic

LinMic carries an Android phone's microphone to a Linux PipeWire source: code-only pairing
over TLS, then Opus frames in authenticated UDP datagrams, a jitter buffer and a virtual
microphone on the desktop.

This crate is its verified core, written in Verus.

- `src/` holds the library, every function with a contract that Verus proves:
  - `protocol`: datagram header, sealing and opening with ChaCha20-Poly1305, the replay
    window and control-message framing;
  - `jitter`: the reordering buffer and its playout schedule;
  - `receiver`: which datagrams reach the buffer and what each released frame plays as;
  - `control`, `handshake`, `pairing`: paired devices, the pairing window, sessions, mute
    and the SPAKE2 pairing conversation with its certificate-bound proofs;
  - `network`, `config`, `codec`, `monitor`, `hotkeys`, `ui`, `text`: keys and addresses,
    settings and profiles, codec limits, local monitoring, shortcuts, interface choices and
    text parsing;
  - `crypto`: the calls into the cryptographic crates, each with the contract the rest
    relies on.
- `tests/` runs the library on concrete values.
- `app/` is the programs around it (daemon, command line, shortcuts): sockets, files,
  threads, the Opus and PipeWire C libraries and the floating-point signal chain.
