//! A minimal ICMP echo ("ping") engine: the packet codec, the per-probe state
//! machine and the statistics of a probe run, with their contracts.

pub mod checksum;
pub mod error;
pub mod packet;
pub mod runner;
pub mod stats;
