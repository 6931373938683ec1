//! The registry of devices, which owns their streaming sessions and
//! agents.

pub mod device_entry;
pub mod device_pool;
pub mod types;

pub use device_entry::DeviceEntry;
pub use device_pool::DevicePool;
pub use types::{DeviceInfo, DevicePoolConfig, DevicePoolError, DevicePoolEvent, DeviceStatus};
