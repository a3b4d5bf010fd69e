//! Binding layer for a native tree-structured UI engine.
//!
//! The native side owns every entity (nodes, events, event targets) and hands
//! the safe side an opaque handle plus a fixed-layout table of entry-point
//! addresses per entity type.  The wrapper types here pair a handle with such
//! a method table and an owning execution context, resolve each operation
//! through the table, cross the boundary with an exception slot, and convert
//! the raw result into a safe value or a typed failure.
//!
//! The native side itself is represented by [`engine::NativeEngine`], a state
//! machine over plain values that states the documented behaviour of every
//! boundary entry point; the wrappers are verified against it.

use vstd::prelude::*;

pub mod c_string;
pub mod container_node;
pub mod engine;
pub mod event;
pub mod event_target;
pub mod exception_state;
pub mod hashchange_event;
pub mod node;

verus! {

/// An address owned and interpreted only by the native engine.  The binding
/// layer never dereferences it; it is a capability token passed back into
/// method-table entry points.
#[derive(Clone, Copy, PartialEq, Eq, Structural, Debug)]
pub struct OpaquePtr {
    pub addr: usize,
}

/// Process-wide handle to one running engine instance.  It defines the
/// lifetime and validity domain for every handle the instance issues: a
/// wrapper may only be used against the engine whose identifier it carries.
#[derive(Clone, Copy, PartialEq, Eq, Structural, Debug)]
pub struct ExecutingContext {
    pub id: usize,
}

/// Status record the native side attaches to values it hands across the
/// boundary, telling the safe side whether the underlying object has already
/// been disposed.
#[derive(Clone, Copy, PartialEq, Eq, Structural, Debug)]
pub struct RustValueStatus {
    pub disposed: bool,
}

/// Marker for the fixed-layout method tables supplied by the native side.
pub trait RustMethods {
}

} // verus!
