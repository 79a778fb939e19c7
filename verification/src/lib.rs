//! Verified core of the ExpressOne robot drivers: the Keli LSE-2027DE LiDAR
//! wire protocol (frame decoding and UDP sub-packet reassembly), the CANopen
//! SDO codec for the DS20270DA servo drives, the CiA 402 enable sequence, and
//! the encoder-count odometry bookkeeping.

pub mod lidar_constants;
pub mod lidar_frame;
pub mod lidar_transport;
pub mod can_frame;
pub mod od;
pub mod sdo;
pub mod bus_wait;
pub mod motor;
pub mod odometry;
pub mod cli;
pub mod session;
pub mod scan_time;
