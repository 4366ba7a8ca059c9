//! Verified core of a system monitor: parsing of kernel and firmware reports,
//! the shared GPU table published by the GPU daemon, the window's page and
//! sidebar decisions, and the sliding window of graph samples.

pub mod text;
pub mod mem_info;
pub mod memory_device;
pub mod shm;
pub mod window;
pub mod graph_data;
pub mod readings;
pub mod flatpak;
