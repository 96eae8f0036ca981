//! Intrusive containers

pub mod linked_list;
