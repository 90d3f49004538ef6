//! Ownership wrappers for references into a host JVM.
//!
//! A call into the JVM hands back a *transient* handle: a reference that is
//! only good until the current execution context ends or the garbage
//! collector runs, and that may be null when the call failed.  Before such a
//! handle can be kept, it must be *promoted* to a durable (global) reference,
//! which pins the referenced object against collection until the reference is
//! explicitly released.
//!
//! This crate verifies that reference-lifetime protocol.  The runtime itself
//! is an external collaborator, reached through the [`runtime::JvmRuntime`]
//! trait: one method per runtime operation the wrappers need, each with a
//! contract over a mathematical model of the runtime's reference tables.  The
//! wrappers ([`array::jvm_int_array::MyJvmIntArray`],
//! [`array::jvm_object_array::MyJvmObjectArray`], [`jvm_class::JvmClass`])
//! hold exactly one pinned reference, established at construction and handed
//! back to the runtime exactly once, by consuming the wrapper.
//! [`mock_jvm::MockJvm`] is a verified in-memory runtime for exercising the
//! protocol without a live JVM.

pub mod array;
pub mod jvm_class;
pub mod mock_jvm;
pub mod promotion;
pub mod runtime;
