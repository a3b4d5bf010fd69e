//! The EventTarget capability: listener registration and dispatch
//! bookkeeping, independent of tree position.

use vstd::prelude::*;
use crate::engine::NativeEngine;
use crate::engine::OP_TARGET_ADD_EVENT_LISTENER;
use crate::engine::OP_TARGET_DISPATCH_EVENT;
use crate::engine::OP_TARGET_REMOVE_EVENT_LISTENER;
use crate::engine::without_listener;
use crate::exception_state::ExceptionState;
use crate::ExecutingContext;
use crate::OpaquePtr;
use crate::RustMethods;

verus! {

/// Expected layout version of [`EventTargetRustMethods`]; checked once, at
/// wrapper construction.
pub const EVENT_TARGET_METHODS_VERSION: u64 = 1;

/// Configuration flags recognised when registering a listener: listen during
/// the capture phase, remove automatically after the first invocation, and
/// promise not to prevent the default action.
#[derive(Clone, Copy, PartialEq, Eq, Structural, Debug)]
pub struct AddEventListenerOptions {
    pub capture: bool,
    pub once: bool,
    pub passive: bool,
}

/// A listener callback as it crosses the boundary: the address of a
/// C-compatible trampoline together with the address of its captured state.
/// The caller's context retains ownership of the captured state and maps the
/// pair back to the closure to run when the native side reports an
/// invocation.
#[derive(Clone, Copy, PartialEq, Eq, Structural, Debug)]
pub struct EventListenerCallback {
    pub trampoline: usize,
    pub state: usize,
}

/// Fixed-layout method table for EventTarget operations, supplied by the
/// native side at construction time.  The first field is the layout version;
/// the rest are entry-point addresses, one per operation.
#[derive(Clone, Copy, PartialEq, Eq, Structural, Debug)]
pub struct EventTargetRustMethods {
    pub version: u64,
    pub add_event_listener: usize,
    pub remove_event_listener: usize,
    pub dispatch_event: usize,
}

impl RustMethods for EventTargetRustMethods {
}

impl EventTargetRustMethods {
    /// The table matches the layout the native side was compiled with: right
    /// version, and every slot holding the matching entry point.
    pub open spec fn wf(&self) -> bool {
        &&& self.version == EVENT_TARGET_METHODS_VERSION
        &&& self.add_event_listener == OP_TARGET_ADD_EVENT_LISTENER
        &&& self.remove_event_listener == OP_TARGET_REMOVE_EVENT_LISTENER
        &&& self.dispatch_event == OP_TARGET_DISPATCH_EVENT
    }
}

/// A safe wrapper for a native event target: an opaque handle, the method
/// table to reach it through, and the execution context whose lifetime the
/// handle is valid for.
#[derive(Clone, Copy, Debug)]
pub struct EventTarget {
    pub ptr: OpaquePtr,
    pub context: ExecutingContext,
    pub method_pointer: EventTargetRustMethods,
}

/// The shared capability contract of everything listeners can be attached
/// to.  Wrapper types of derived capabilities implement it by delegating to
/// the event target they embed.
pub trait EventTargetMethods: Sized + Copy {
    /// The opaque handle this wrapper stands for.
    spec fn handle_addr(&self) -> usize;

    /// The execution context the handle belongs to.
    spec fn ctx_id(&self) -> usize;

    /// The wrapper was built over method tables matching the native layout.
    spec fn wf(&self) -> bool;

    /// The wrapped handle, for use in further boundary calls.
    fn ptr(&self) -> (p: OpaquePtr)
        ensures
            p.addr == self.handle_addr(),
    ;

    /// Registers `callback` to run whenever an occurrence named `event_name`
    /// is dispatched on this target.  The native side appends the listener to
    /// its registry; registration itself always succeeds on a live target.
    fn add_event_listener(
        &self,
        engine: &mut NativeEngine,
        event_name: &str,
        callback: EventListenerCallback,
        options: &AddEventListenerOptions,
        exception_state: &mut ExceptionState,
    ) -> (r: Result<(), String>)
        requires
            self.wf(),
            old(engine).wf(),
            self.ctx_id() == old(engine).context_id,
            old(engine).valid_node(self.handle_addr()),
            old(exception_state).is_clear(),
        ensures
            final(engine).wf(),
            final(engine).context_id == old(engine).context_id,
            final(engine).nodes@ == old(engine).nodes@,
            final(engine).events@ == old(engine).events@,
            final(exception_state).is_clear(),
            r is Ok,
            final(engine).listeners@.len() == old(engine).listeners@.len() + 1,
            final(engine).listeners@.drop_last() == old(engine).listeners@,
            ({
                let l = final(engine).listeners@.last();
                l.target == self.handle_addr() && l.name@ == event_name@ && l.callback
                    == callback && l.capture == options.capture && l.once == options.once
                    && l.passive == options.passive
            }),
    ;

    /// Unregisters every listener previously added on this target for
    /// `event_name` with `callback`.  Removing a listener that was never
    /// added is a successful no-op: the native side reports no failure.
    fn remove_event_listener(
        &self,
        engine: &mut NativeEngine,
        event_name: &str,
        callback: EventListenerCallback,
        exception_state: &mut ExceptionState,
    ) -> (r: Result<(), String>)
        requires
            self.wf(),
            old(engine).wf(),
            self.ctx_id() == old(engine).context_id,
            old(engine).valid_node(self.handle_addr()),
            old(exception_state).is_clear(),
        ensures
            final(engine).wf(),
            final(engine).context_id == old(engine).context_id,
            final(engine).nodes@ == old(engine).nodes@,
            final(engine).events@ == old(engine).events@,
            final(exception_state).is_clear(),
            r is Ok,
            final(engine).listeners@ == without_listener(
                old(engine).listeners@,
                self.handle_addr(),
                event_name@,
                callback,
            ),
    ;
}

impl EventTarget {
    /// Wraps a native handle.  The handle, the context and the method table
    /// must come from the native engine, with the table matching the layout
    /// the engine was compiled with; anything else is a contract violation
    /// this layer does not detect.
    pub fn initialize(
        ptr: OpaquePtr,
        context: ExecutingContext,
        method_pointer: &EventTargetRustMethods,
    ) -> (t: EventTarget)
        requires
            method_pointer.wf(),
        ensures
            t.wf(),
            t.handle_addr() == ptr.addr,
            t.ctx_id() == context.id,
    {
        EventTarget { ptr, context, method_pointer: *method_pointer }
    }

    /// The owning context, for looking up shared services.
    pub fn context(&self) -> (c: ExecutingContext)
        ensures
            c.id == self.ctx_id(),
    {
        self.context
    }
}

impl EventTargetMethods for EventTarget {
    open spec fn handle_addr(&self) -> usize {
        self.ptr.addr
    }

    open spec fn ctx_id(&self) -> usize {
        self.context.id
    }

    open spec fn wf(&self) -> bool {
        self.method_pointer.wf()
    }

    fn ptr(&self) -> OpaquePtr {
        self.ptr
    }

    fn add_event_listener(
        &self,
        engine: &mut NativeEngine,
        event_name: &str,
        callback: EventListenerCallback,
        options: &AddEventListenerOptions,
        exception_state: &mut ExceptionState,
    ) -> Result<(), String> {
        engine.invoke_add_event_listener(
            self.method_pointer.add_event_listener,
            self.ptr.addr,
            event_name,
            callback,
            options,
            exception_state,
        );
        if exception_state.has_exception() {
            Err(exception_state.message_string())
        } else {
            Ok(())
        }
    }

    fn remove_event_listener(
        &self,
        engine: &mut NativeEngine,
        event_name: &str,
        callback: EventListenerCallback,
        exception_state: &mut ExceptionState,
    ) -> Result<(), String> {
        engine.invoke_remove_event_listener(
            self.method_pointer.remove_event_listener,
            self.ptr.addr,
            event_name,
            callback,
            exception_state,
        );
        if exception_state.has_exception() {
            Err(exception_state.message_string())
        } else {
            Ok(())
        }
    }
}

} // verus!
