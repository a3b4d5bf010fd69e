//! ContainerNode: a Node specialisation that is a valid parent, as opposed
//! to leaf nodes.  It adds no operations of its own; generated leaf types
//! layer concrete accessors on top.

use vstd::prelude::*;
use crate::engine::NativeEngine;
use crate::event_target::AddEventListenerOptions;
use crate::event_target::EventListenerCallback;
use crate::event_target::EventTargetMethods;
use crate::exception_state::ExceptionState;
use crate::node::Node;
use crate::node::NodeMethods;
use crate::node::NodeRustMethods;
use crate::ExecutingContext;
use crate::OpaquePtr;
use crate::RustMethods;

verus! {

/// Expected layout version of [`ContainerNodeRustMethods`]; checked once,
/// at wrapper construction.
pub const CONTAINER_NODE_METHODS_VERSION: u64 = 1;

/// Fixed-layout method table for ContainerNode operations: the version,
/// then the matching Node table, embedded.
#[derive(Clone, Copy, PartialEq, Eq, Structural, Debug)]
pub struct ContainerNodeRustMethods {
    pub version: u64,
    pub node: NodeRustMethods,
}

impl RustMethods for ContainerNodeRustMethods {
}

impl ContainerNodeRustMethods {
    /// The table matches the layout the native side was compiled with, its
    /// embedded Node table included.
    pub open spec fn wf(&self) -> bool {
        &&& self.version == CONTAINER_NODE_METHODS_VERSION
        &&& self.node.wf()
    }
}

/// A safe wrapper for a native container node: the Node facet it embeds,
/// plus the ContainerNode method table.
#[derive(Clone, Copy, Debug)]
pub struct ContainerNode {
    pub node: Node,
    pub method_pointer: ContainerNodeRustMethods,
}

/// The capability contract of parents in the tree.  It adds nothing to
/// Node's contract in the base layer.
pub trait ContainerNodeMethods: NodeMethods {
}

impl ContainerNode {
    /// Wraps a native container-node handle.  Initialisation threads the
    /// nested Node table through to build the embedded Node facet.
    pub fn initialize(
        ptr: OpaquePtr,
        context: ExecutingContext,
        method_pointer: &ContainerNodeRustMethods,
    ) -> (n: ContainerNode)
        requires
            method_pointer.wf(),
        ensures
            n.wf(),
            n.handle_addr() == ptr.addr,
            n.ctx_id() == context.id,
    {
        ContainerNode {
            node: Node::initialize(ptr, context, &method_pointer.node),
            method_pointer: *method_pointer,
        }
    }

    /// The owning context, for looking up shared services.
    pub fn context(&self) -> (c: ExecutingContext)
        ensures
            c.id == self.ctx_id(),
    {
        self.node.context()
    }
}

impl EventTargetMethods for ContainerNode {
    open spec fn handle_addr(&self) -> usize {
        self.node.handle_addr()
    }

    open spec fn ctx_id(&self) -> usize {
        self.node.ctx_id()
    }

    open spec fn wf(&self) -> bool {
        self.node.wf() && self.method_pointer.wf()
    }

    fn ptr(&self) -> OpaquePtr {
        self.node.ptr()
    }

    fn add_event_listener(
        &self,
        engine: &mut NativeEngine,
        event_name: &str,
        callback: EventListenerCallback,
        options: &AddEventListenerOptions,
        exception_state: &mut ExceptionState,
    ) -> Result<(), String> {
        self.node.add_event_listener(engine, event_name, callback, options, exception_state)
    }

    fn remove_event_listener(
        &self,
        engine: &mut NativeEngine,
        event_name: &str,
        callback: EventListenerCallback,
        exception_state: &mut ExceptionState,
    ) -> Result<(), String> {
        self.node.remove_event_listener(engine, event_name, callback, exception_state)
    }
}

impl NodeMethods for ContainerNode {
    fn append_child<T: EventTargetMethods>(
        &self,
        engine: &mut NativeEngine,
        new_node: &T,
        exception_state: &mut ExceptionState,
    ) -> Result<T, String> {
        self.node.append_child(engine, new_node, exception_state)
    }

    fn remove_child<T: EventTargetMethods>(
        &self,
        engine: &mut NativeEngine,
        target_node: &T,
        exception_state: &mut ExceptionState,
    ) -> Result<T, String> {
        self.node.remove_child(engine, target_node, exception_state)
    }

    fn as_node(&self) -> &Node {
        &self.node
    }
}

impl ContainerNodeMethods for ContainerNode {
}

} // verus!
