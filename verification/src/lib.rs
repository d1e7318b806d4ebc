//! Telemetry core for a BlueTherm-style temperature probe: a fixed
//! 128-byte frame codec with a CRC-16 checksum, the frame-reassembly and
//! staleness logic of the serial connection layer, and the harvester
//! session state machine that polls the probe, classifies failures and
//! decides when to tear a connection down and rebuild it. The serial
//! device, the worker threads and the storage engine live outside the
//! library and only carry its decisions out.

pub mod bytes;
pub mod connection;
pub mod converters;
pub mod crc;
pub mod data_flags;
pub mod harvester;
pub mod message_type;
pub mod migrations;
pub mod models;
pub mod packet;
pub mod pool;
pub mod project_form;
pub mod thread_guard;
pub mod view_models;
