//! System sensors: the parts of sampling that read what the kernel
//! reports and turn it into values for the faces.

pub mod data;
pub mod memory;
pub mod network;
pub mod procfs;
pub mod system;
