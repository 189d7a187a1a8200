# rns_mavlink

A bridge between a flight controller on a serial port and a ground station on
UDP, over a Reticulum mesh network.

- `src/` is the library, verified with Verus: the reassembly of MAVLink frames,
  the heartbeat, the decisions of both ends of the bridge, the traffic counters,
  the log lines and the dashboard. Each loop of the bridge is a function from
  what happened to what to do next.
- `app/` is the program around it: sockets, serial port, links, files, web
  server. It performs the actions and reports the events.
  Other programs can bring a Reticulum transport of their own and step the same
  bridges from their own loops.
- `tests/` runs the library on concrete values.

```
rns-mavlink gc -p 4242 -f 127.0.0.1:4243
rns-mavlink fc -p 4243 -f 127.0.0.1:4242
rns-mavlink fc-sitl
```

`gc` reads `Gc.toml` and `fc` reads `Fc.toml` from the working directory.

What the library takes on trust is marked `#[verifier::external_body]`: the calls
into `mavlink`, `bytes`, `serde_json` and `chrono`, and the quoting of strings.
