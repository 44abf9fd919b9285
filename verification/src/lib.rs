//! A PL031-style real-time clock behind a memory-mapped register window.

pub mod device;
pub mod laws;
pub mod machine;
pub mod metrics;
pub mod registers;

pub use device::RTCDevice;
pub use metrics::RTCDeviceMetrics;
