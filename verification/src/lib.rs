//! Memory-management core of a real-time rendering engine: byte arenas,
//! fixed-capacity slot pools with an index free list, and the queue that
//! defers resource destruction until the frames in flight have retired.

pub mod application;
pub mod fundamental;
pub mod graphics;
