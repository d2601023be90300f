//! Host-specific parts; only Linux is supported.
pub mod linux;
