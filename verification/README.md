# soft_kvm

The logic of Soft KVM, a LAN-only, low-latency keyboard/video/mouse sharing
system, written in Verus with its contracts proved.

- `src/` is the verified library: the protocol (messages, sessions, the
  session registry, the transport and WebSocket decisions), service
  discovery (TXT records, the service caches), the server and client
  handlers and configuration, the platform layer (devices, permissions,
  system services), the plugins behind the desktop shell, and the text
  helpers they share. `src/bridge.rs` and a few wrappers beside their
  callers are the calls into outside crates, with the contracts that are
  believed of them.
- `tests/` exercises the library.
- `app/` is the client program and what touches the operating system:
  the command line, mDNS browsing, sockets and WebSocket streams, TLS
  handshakes, the input channels, files, commands, the environment, permission requests,
  metrics export and floating-point statistics. At each step it asks the
  library what to do.
