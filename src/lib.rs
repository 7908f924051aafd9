//! Singly linked stacks: a fixed `i32` stack and a generic stack with
//! peeking and consuming iteration. Both are modelled as a sequence whose
//! last element is the top, and both tear down their chains iteratively.
pub mod stack_model;
pub mod bad_stack;
pub mod ok_stack;
