//! Owned, pinned references to JVM arrays.

pub mod jvm_int_array;
pub mod jvm_object_array;
