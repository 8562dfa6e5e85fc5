# aa_mirror

The core of a proxy between an Android Auto head unit and a mobile device, written in
Verus. The proxy either mirrors the screen of the mobile device onto the head unit, or
passes the session of the two through and may look into it.

`src/` holds what the proxy decides and computes, each function with a proved contract:

- `wire`, `text`, `protos`: numbers in big-endian order, strings, message numbers
- `channel_manager`: frames, packets and the buffers behind a TLS engine
- `tls_proxy`, `packet_hooks`, `relay`: the packet loops, the handshakes, the changed
  packets and their way between the peers
- `messages`, `aa_services`, `media_sinks`, `service_manager`, `service_tasks`,
  `recorder`: the services of a session and their manager
- `scrcpy`, `scrcpy_media`, `media_session`, `scrcpy_adb`, `h264_reader`, `buffers`:
  input events, media streams, the server on the mobile device
- `bluetooth`, `hid`: the handshake over Bluetooth and the input device
- `io_uring`, `system_config`, `config`: the session loops, the files of the system

Where a loop reads, waits or sends, the library has one function from a state and an
event to the next state and the actions to perform.

`app/` is the program: it performs these actions with tokio-uring, OpenSSL, BlueZ and
adb. It reads the message types from a protobuf file descriptor set, whose path the
setting `message_schema` gives.

`tests/` runs the library on concrete values.
