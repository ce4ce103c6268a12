//! Allocators, pools and other engine-wide building blocks.

pub mod memory;
pub mod service;
pub mod string;
pub mod structures;
pub mod time;

pub use memory::HeapAllocator;
pub use memory::StackAllocator;
pub use string::StringBuffer;
