//! Where guests are met.

pub mod hosting;
