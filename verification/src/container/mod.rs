//! Containers whose nodes are linked in place

pub mod intrusive;
pub mod zero_alloc;
