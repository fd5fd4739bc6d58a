# onvif_cam_rs

A client library for ONVIF IP cameras, written in Verus.

- `src/client/soap.rs`: the SOAP envelopes of the supported requests and the
  WS-Discovery probe, specified character for character.
- `src/client/security.rs`: WS-Security UsernameToken headers with
  `Digest = Base64(SHA1(Nonce + Created + Password))`.
- `src/client/calendar.rs`: Gregorian calendar arithmetic and the UTC
  `Created` timestamp, with proofs that a reading names exactly its instant;
  `src/client/calendar_order.rs`: timestamps sort as the instants they name.
- `src/client/retry.rs`, `src/client/discovery.rs`, `src/client/reply.rs`:
  the decisions of the request retry loop and of device discovery, and the
  reading of discovery replies.
- `src/device/`: devices, credentials and cameras.
- `src/codec.rs`, `src/text.rs`: Base64, UUID and decimal renderings.
- `src/trusted.rs`: the calls into std, `rand`, `base64`, `sha1`, `uuid` and
  `url`, with the contracts the library relies on.
- `app/lib.rs`: the network I/O (UDP multicast discovery, HTTP with `reqwest`
  and `tokio`), driven by the library's decisions.
