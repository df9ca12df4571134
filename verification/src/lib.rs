//! Host-side protocol client for a USB-attached measurement instrument.
//!
//! The library holds the pure core of the driver: the wire codec for the two
//! protocol generations, the calibration arithmetic for analog inputs and
//! outputs, the pulse-timing register solver, the sample collation for data
//! sweeps, and the request/response correlation engine that a per-device
//! worker loop drives. Transport I/O (HID reports, bulk USB transfers) stays
//! outside the library; the worker loop hands frames in and carries frames
//! and actions out.
//!
//! Physical quantities are carried as scaled integers so that every
//! conversion is exact and reproducible: voltages in microvolts, frequencies
//! in millihertz, duty cycles in parts per million.

pub mod analog_input;
pub mod analog_output;
pub mod arith;
pub mod codec;
pub mod commands;
pub mod data_requests;
pub mod errors;
pub mod responses;
pub mod session;
pub mod pulse_output;
pub mod power;
pub mod trigger;

pub use analog_input::{AnalogInput, AnalogInterface};
pub use analog_output::{AnalogOutputState, AnalogSignalPolarity, AnalogWaveType};
pub use commands::{Command, DataRequestConfig};
pub use data_requests::{Collators, Sample};
pub use errors::EncodeError;
pub use power::{PowerState, PowerStatus, PowerUsage};
pub use pulse_output::{PulseOutputState, PulsePreScale};
pub use responses::{StatusResponse, StatusResponseLegacy};
pub use session::{ActiveRequest, Generation, Session, SessionAction, SweepState};
pub use trigger::{Trigger, TriggerType};
