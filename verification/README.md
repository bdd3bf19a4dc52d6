# blueos-recorder

Records what a vehicle publishes over zenoh into an MCAP file. MAVLink traffic is recorded while
the vehicle is armed, video while its camera was told to capture, anything else always.

- `src/` is the library: the decisions the recorder takes, with contracts that Verus proves.
  - `cli`: the command line, its settings and those of the zenoh session.
  - `channel_descriptor`, `json`: what a recording says of a topic, and schemas of JSON messages.
  - `mav`: heartbeats and arming, cameras and their streams, commands and the frames that answer
    them.
  - `recording`: what is queued for the writer, which records it becomes, and how the two agree.
  - `service`: which samples are recorded, and under which name.
  - `text`, `text_map`: strings and maps with text keys.
- `app/` is the program around it: sessions, threads, timers and files, and how often a recording is
  reported on, which is reckoned in floating point. It is built with
  `mavlink_codec` and with the message definitions under `src/external/zBlueberry/msgs`.
- `tests/` runs the library on concrete values.
