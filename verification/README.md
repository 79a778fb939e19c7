# expressone

Drivers of the ExpressOne robot: the Keli LSE-2027DE LiDAR (UDP) and the
DS20270DA CANopen servo drives. The protocol logic is a Verus-verified
library; the programs around it are ordinary Rust.

- `src/` — the verified library
  - `lidar_constants`, `lidar_frame`, `lidar_transport`: LiDAR wire format,
    frame decoding, and sub-packet reassembly as a state machine whose every
    step is specified (`spec_step`), with the reassembly law proved.
  - `can_frame`, `od`, `sdo`: CAN frames, the object dictionary, and the SDO
    request/answer codec.
  - `motor`: the SDO transfers of each motor command, register conversions,
    and the CiA 402 enable plan.
  - `odometry`, `session`, `scan_time`: encoder-delta and CAN-error
    bookkeeping, the WebSocket session rules, scan time stamps.
  - `cli`: console command and number parsing.
- `tests/` — tests of the library.
- `app/` — the programs (`hls-cli`, `hls-canopen`, `keli-lidar`,
  `canopen-ros2`): sockets, timers, ROS2, JSON, and the floating-point
  kinematics and scan conversion.
