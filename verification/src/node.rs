//! The Node capability: tree membership operations, built on top of
//! EventTarget.

use vstd::prelude::*;
use crate::engine::NativeEngine;
use crate::engine::OP_NODE_APPEND_CHILD;
use crate::engine::OP_NODE_REMOVE_CHILD;
use crate::engine::remove_value;
use crate::event_target::AddEventListenerOptions;
use crate::event_target::EventListenerCallback;
use crate::event_target::EventTarget;
use crate::event_target::EventTargetMethods;
use crate::event_target::EventTargetRustMethods;
use crate::exception_state::ExceptionState;
use crate::ExecutingContext;
use crate::OpaquePtr;
use crate::RustMethods;

verus! {

/// Expected layout version of [`NodeRustMethods`]; checked once, at wrapper
/// construction.
pub const NODE_METHODS_VERSION: u64 = 1;

/// Fixed-layout method table for Node operations.  It composes by
/// embedding: the EventTarget table comes first, mirroring the capability
/// hierarchy, then the entry points Node adds.
#[derive(Clone, Copy, PartialEq, Eq, Structural, Debug)]
pub struct NodeRustMethods {
    pub version: u64,
    pub event_target: EventTargetRustMethods,
    pub append_child: usize,
    pub remove_child: usize,
}

impl RustMethods for NodeRustMethods {
}

impl NodeRustMethods {
    /// The table matches the layout the native side was compiled with, its
    /// embedded base table included.
    pub open spec fn wf(&self) -> bool {
        &&& self.version == NODE_METHODS_VERSION
        &&& self.event_target.wf()
        &&& self.append_child == OP_NODE_APPEND_CHILD
        &&& self.remove_child == OP_NODE_REMOVE_CHILD
    }
}

/// A safe wrapper for a native tree node: the EventTarget facet it embeds,
/// plus the Node method table.
#[derive(Clone, Copy, Debug)]
pub struct Node {
    pub event_target: EventTarget,
    pub method_pointer: NodeRustMethods,
}

/// The capability contract of everything that can stand in the tree.
/// Wrapper types of derived capabilities implement it by delegating to the
/// node they embed.
pub trait NodeMethods: EventTargetMethods {
    /// Inserts `new_node` as the last child of `self`, moving it there if it
    /// already was a child.  The native side rejects inserting a node into
    /// itself with a native exception and then leaves the tree unchanged.
    /// On success the returned wrapper reuses `new_node`'s identity: no new
    /// handle is minted.  Both wrappers must belong to the same execution
    /// context; crossing contexts is a contract violation this layer does
    /// not detect.
    fn append_child<T: EventTargetMethods>(
        &self,
        engine: &mut NativeEngine,
        new_node: &T,
        exception_state: &mut ExceptionState,
    ) -> (r: Result<T, String>)
        requires
            self.wf(),
            new_node.wf(),
            old(engine).wf(),
            self.ctx_id() == old(engine).context_id,
            new_node.ctx_id() == self.ctx_id(),
            old(engine).valid_node(self.handle_addr()),
            old(engine).valid_node(new_node.handle_addr()),
            old(exception_state).is_clear(),
        ensures
            final(engine).wf(),
            final(engine).context_id == old(engine).context_id,
            final(engine).nodes@.len() == old(engine).nodes@.len(),
            final(engine).events@ == old(engine).events@,
            final(engine).listeners@ == old(engine).listeners@,
            forall|q: usize|
                old(engine).valid_node(q) && q != self.handle_addr() ==> #[trigger] final(engine).children_of(q) == old(engine).children_of(q),
            self.handle_addr() != new_node.handle_addr() ==> r is Ok && r->Ok_0 == *new_node
                && final(exception_state).is_clear() && final(engine).children_of(
                self.handle_addr(),
            ) == remove_value(
                old(engine).children_of(self.handle_addr()),
                new_node.handle_addr(),
            ).push(new_node.handle_addr()) && final(engine).children_of(self.handle_addr()).last()
                == new_node.handle_addr(),
            self.handle_addr() == new_node.handle_addr() ==> r is Err && *final(engine) == *old(engine) && !final(exception_state).is_clear() && r->Err_0@
                == "HierarchyRequestError: a node cannot be inserted into itself"@,
    ;

    /// Removes `target_node` from `self`'s children.  The native side
    /// rejects removing a node that is not currently a child with a native
    /// exception and then leaves the tree unchanged.  The removed node stays
    /// alive, detached: the native side retains ownership of the subtree.
    fn remove_child<T: EventTargetMethods>(
        &self,
        engine: &mut NativeEngine,
        target_node: &T,
        exception_state: &mut ExceptionState,
    ) -> (r: Result<T, String>)
        requires
            self.wf(),
            target_node.wf(),
            old(engine).wf(),
            self.ctx_id() == old(engine).context_id,
            target_node.ctx_id() == self.ctx_id(),
            old(engine).valid_node(self.handle_addr()),
            old(engine).valid_node(target_node.handle_addr()),
            old(exception_state).is_clear(),
        ensures
            final(engine).wf(),
            final(engine).context_id == old(engine).context_id,
            final(engine).nodes@.len() == old(engine).nodes@.len(),
            final(engine).events@ == old(engine).events@,
            final(engine).listeners@ == old(engine).listeners@,
            forall|q: usize|
                old(engine).valid_node(q) && q != self.handle_addr() ==> #[trigger] final(engine).children_of(q) == old(engine).children_of(q),
            old(engine).children_of(self.handle_addr()).contains(target_node.handle_addr()) ==> r
                is Ok && r->Ok_0 == *target_node && final(exception_state).is_clear() && final(engine).children_of(self.handle_addr()) == remove_value(
                old(engine).children_of(self.handle_addr()),
                target_node.handle_addr(),
            ),
            !old(engine).children_of(self.handle_addr()).contains(target_node.handle_addr()) ==> r
                is Err && *final(engine) == *old(engine) && !final(exception_state).is_clear()
                && r->Err_0@
                == "NotFoundError: the node to be removed is not a child of this node"@,
    ;

    /// The shared Node facet of any capability that embeds one; total, never
    /// fails.
    fn as_node(&self) -> (n: &Node)
        requires
            self.wf(),
        ensures
            n.wf(),
            n.handle_addr() == self.handle_addr(),
            n.ctx_id() == self.ctx_id(),
    ;
}

impl Node {
    /// Wraps a native node handle.  The handle, the context and the method
    /// table must come from the native engine, with the table matching the
    /// layout the engine was compiled with; the embedded EventTarget facet
    /// is built from the embedded base table.
    pub fn initialize(
        ptr: OpaquePtr,
        context: ExecutingContext,
        method_pointer: &NodeRustMethods,
    ) -> (n: Node)
        requires
            method_pointer.wf(),
        ensures
            n.wf(),
            n.handle_addr() == ptr.addr,
            n.ctx_id() == context.id,
    {
        Node {
            event_target: EventTarget::initialize(ptr, context, &method_pointer.event_target),
            method_pointer: *method_pointer,
        }
    }

    /// The owning context, for looking up shared services.
    pub fn context(&self) -> (c: ExecutingContext)
        ensures
            c.id == self.ctx_id(),
    {
        self.event_target.context()
    }
}

impl EventTargetMethods for Node {
    open spec fn handle_addr(&self) -> usize {
        self.event_target.handle_addr()
    }

    open spec fn ctx_id(&self) -> usize {
        self.event_target.ctx_id()
    }

    open spec fn wf(&self) -> bool {
        self.event_target.wf() && self.method_pointer.wf()
    }

    fn ptr(&self) -> OpaquePtr {
        self.event_target.ptr()
    }

    fn add_event_listener(
        &self,
        engine: &mut NativeEngine,
        event_name: &str,
        callback: EventListenerCallback,
        options: &AddEventListenerOptions,
        exception_state: &mut ExceptionState,
    ) -> Result<(), String> {
        self.event_target.add_event_listener(engine, event_name, callback, options, exception_state)
    }

    fn remove_event_listener(
        &self,
        engine: &mut NativeEngine,
        event_name: &str,
        callback: EventListenerCallback,
        exception_state: &mut ExceptionState,
    ) -> Result<(), String> {
        self.event_target.remove_event_listener(engine, event_name, callback, exception_state)
    }
}

impl NodeMethods for Node {
    fn append_child<T: EventTargetMethods>(
        &self,
        engine: &mut NativeEngine,
        new_node: &T,
        exception_state: &mut ExceptionState,
    ) -> Result<T, String> {
        let child = new_node.ptr();
        let _inserted = engine.invoke_node_op(
            self.method_pointer.append_child,
            self.event_target.ptr().addr,
            child.addr,
            exception_state,
        );
        if exception_state.has_exception() {
            Err(exception_state.message_string())
        } else {
            Ok(*new_node)
        }
    }

    fn remove_child<T: EventTargetMethods>(
        &self,
        engine: &mut NativeEngine,
        target_node: &T,
        exception_state: &mut ExceptionState,
    ) -> Result<T, String> {
        let child = target_node.ptr();
        let _removed = engine.invoke_node_op(
            self.method_pointer.remove_child,
            self.event_target.ptr().addr,
            child.addr,
            exception_state,
        );
        if exception_state.has_exception() {
            Err(exception_state.message_string())
        } else {
            Ok(*target_node)
        }
    }

    fn as_node(&self) -> &Node {
        self
    }
}

} // verus!
