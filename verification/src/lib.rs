//! Singly-linked containers with verified contracts.
//!
//! The core is a singly-linked list whose nodes own their successors; a
//! queue and a stack are thin adapters over it.  Every public operation is
//! specified against a sequence view of the container's contents.

pub mod collection;
pub mod laws;
pub mod list;
pub mod linked_list;
pub mod list_node;
pub mod linked_list_iterator;
pub mod node;
pub mod queue;
pub mod queue_node;
pub mod stack;
