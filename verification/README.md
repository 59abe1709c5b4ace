# ftls

The protocol library of a TLS tunnel (SOCKS5 proxying and IP packets over a
TUN device), verified with Verus.

- `src/flavor.rs`: the frame around every message (`FTLS`, a little-endian
  `u64` length, the payload), the serializer flavor that writes it and the
  deserializer flavor that opens it.
- `src/message.rs`: the messages, their errors, and a stream reader that
  takes a frame apart piece by piece.
- `src/text.rs`: decimal text of bytes (version strings, IPv4 addresses) and
  reading a version number.
- `src/handshake.rs`, `src/server.rs`, `src/socks5.rs`, `src/dns.rs`,
  `src/tun.rs`: the decisions of the server and the client during the
  handshake and while relaying.
- `src/laws.rs`: laws that tie the two sides together.
- `app/`: the client and server programs (sockets, TLS, TUN devices, DNS,
  serde/postcard encoding), calling the library.
