# lumina

The verified core of LuminaRemote, a peer-to-peer remote desktop.

`src/` is a Verus library: every function carries a contract that Verus proves.

- `capture`: frames, dirty-rectangle computation, RGBA to framebuffer words,
  and the capture device interface with the native Windows and macOS stubs.
- `encoder`: the JPEG encoder's state, pixel resampling and RGB conversion,
  the header that frames each video packet on the QUIC stream, and the reader
  that turns the received stream back into packets, in order.
- `qos`: adaptive bitrate and frame rate.
- `stun`: STUN Binding Request and Response (RFC 5389) as bytes.
- `mdns`: service names and the choice of the LAN address of a peer.
- `manager`: the order in which connection paths are tried: LAN, STUN, then a
  port on the Relay Server that runs beside the Signal Server.
- `host_session`: access control of an incoming connection: the handshake,
  then the user's consent, and only then the streams.
- `keys`, `handshake`, `cert`: key derivation from the session PIN, the
  HMAC mutual authentication, the dummy TLS certificate.
- `signaling`, `sessions`: signalling messages, the Signal Server URL, and the
  Signal Server's routing over `dashmap` tables of session ids.
- `relay`: the Relay Server's peer locking and forwarding.
- `input`: names of keys and buttons, and the injections for an input event.
- `ui`: device ids, session PINs, the list of saved machines.
- `addr`, `wire`, `text`: addresses, big-endian integers, string helpers.

`app/` runs the programs (Signal Server, Relay Server, desktop host) around the
library: sockets, QUIC, WebSockets, mDNS, files, input injection. The `xcap`
screen-capture backend is not a dependency of this crate, so the desktop host
has no working screen capture.
