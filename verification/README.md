# my_home

The logic of a small smart-home controller running on a Raspberry Pi: it
reads a TSL2591 light sensor, drives LIFX bulbs on the local network, keeps
a switch in sync with the SmartThings platform over MQTT, and shows frames
on an e-ink screen.

`src/` is the library, verified with Verus:

- `tsl2591`: the light sensor driver, as a state machine that decides each
  I²C transaction and reads each reply; `laws.rs` holds what it guarantees
  across operations.
- `lifx`: what is known of each bulb, the messages that discover, refresh
  and dim them, and the datagram codec (`lifx::codec`) over `lifx_core`.
- `smartthings`: topics, routing of incoming messages, the session that
  holds device events until a connection exists, and the signed token.
- `mqtt`: client options, checks of requests, and the connection's packet
  identifiers and pending acknowledgements.
- `actor`: the registry of named actors, the subscriptions of
  publish/subscribe channels, the timer's jobs, and the framed UDP reader.
- `logic`, `screen`, `sensors`, `configuration`, `text`: the switch and the
  adaptive brightness, the screen's frames and buffer layout, and helpers.

`app/` is the program around it: tasks, sockets, the I²C bus, serde, the
PID controller and drawing. `tests/` runs the library on concrete values.
