//! A bump-pointer allocator over one region obtained from a memory source,
//! with overflow-checked address arithmetic over non-zero sizes.

pub mod non_zero;
pub mod memory_address;
pub mod memory_range;
pub mod allocator;
pub mod memory_source;
pub mod bump_allocator;
