//! Device setup: queue-family selection, the queue/pool record plan, and
//! physical-device suitability.

pub mod queues;
pub mod device;
