//! Verified decision core of the Foxhole sandbox.

pub mod address_text;
pub mod artifact;
pub mod backend;
pub mod clock;
pub mod digest;
pub mod dispatcher;
pub mod host_path;
pub mod hyperv;
pub mod net;
pub mod sandbox_linux;
pub mod sandbox_utils;
pub mod sorted;
pub mod structs;
pub mod text;
