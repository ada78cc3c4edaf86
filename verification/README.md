# azure_iot_operations

Session and command layer of an MQTT version 5.0 client. The decisions of both layers are a library
that is verified with Verus; what communicates is ordinary asynchronous Rust around it.

- `src/session`: dispatching incoming publishes to receivers by topic, acknowledging them in the order
  in which they were received, and the configuration, connection state and exit of a session.
- `src/unified_mqtt_adapter.rs`, `src/connection_settings.rs`: what the MQTT client is created with and
  asked to do, and when it reconnects.
- `src/rpc_command/executor`: which requests are handed to the application, how every other one is
  answered, how responses are made up, and the cache that answers duplicates.
- `src/common`: user properties, protocol versions, payloads and errors that the protocol shares.
- `src/topic.rs`, `src/control_packet.rs`, `src/time.rs`, `src/text.rs`, `src/bytes_data.rs`,
  `src/mask.rs`: the vocabulary of the other modules.
- `src/interface_mocks.rs`: a client that records what it is asked.
- `app`: the traits of the client, the tasks that send acks, receive requests and publish responses,
  and the reading of files.
- `tests`: the library on concrete values.

Functions whose names begin with `law_` are proofs of what holds across calls. What depends on the
outside, such as the time, the contents of a file, or what a payload deserializes to, is handed to the
library as a function; contracts say what such a function is asked, and what follows from each of its
answers.
