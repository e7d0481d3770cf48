# ctap-common

CTAP passthrough for remote desktop sessions: a browser on the remote
machine talks CTAPHID to a virtual FIDO device, the remote service tunnels
CTAP2 requests to the client, and the client relays them to a physical
security key (or a web client does so through the companion app).

`src/` is the Verus-verified library:

- `ctap_hid` — CTAPHID framing: reassembly (`CtapHidAssembler::feed`, a
  state machine specified by `spec_feed`), fragmentation (`fragment`,
  specified report by report), message constructors, the CTAP2 allow list.
- `framing_laws` — reassembly of a fragmented message gives it back; errors
  and completed messages leave the reassembler idle; reachable states stay
  reachable.
- `ctap_service` — the remote service as a state machine: reports from the
  browser, responses from the client and keepalive ticks in, device writes and
  tunnel frames out. `service_laws` proves that only allowed CTAP2 commands
  are forwarded, one transaction at a time, with timeouts.
- `fido_relay`, `ctap_local` — the decisions of the relay to a physical key
  (channel allocation, reading, answers) and the frames sent back.
- `ctap_uhid`, `ctap_virtual_device`, `ctap_vhf`, `ctap_driverkit` — uhid
  event encoding and decoding, the FIDO report descriptor, platform support.
- `protocol`, `ws_server` — the companion's WebSocket protocol decisions
  (origin check, message handling, base64 through the `base64` crate).
- `passthrough_laws` — laws across these parts.

`app/` holds the I/O: the companion binary (`main`), the WebSocket server, the
hidapi relay, the uhid device and the remote service's event loop.
