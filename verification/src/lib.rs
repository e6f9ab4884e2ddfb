//! A typed façade for emitting intermediate-representation instructions.
//!
//! A [`builder::Builder`] is a cursor into a basic block. Each of its
//! operations checks the display name, records one instruction at the cursor
//! and hands back a handle of the kind that the operation yields. The record
//! is what a code-generation engine is asked to append, in order.

pub mod basic_block;
pub mod builder;
pub mod instruction;
pub mod types;
pub mod values;
