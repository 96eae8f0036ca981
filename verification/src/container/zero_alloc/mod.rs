//! Containers that never allocate for their own bookkeeping

pub mod linked_list;
