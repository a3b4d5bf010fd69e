//! The Event capability: a single occurrence delivered to listeners, with
//! read-only accessors over boundary-owned state and mutators forwarded to
//! the native side.  The binding layer holds no event state of its own; it
//! observes the native object through accessors at call time, re-evaluated
//! on every call.

use vstd::prelude::*;
use crate::c_string::copy_c_string;
use crate::c_string::lemma_c_content_round_trip;
use crate::engine::event_nul_free;
use crate::engine::same_event_core;
use crate::engine::NativeEngine;
use crate::engine::OP_EVENT_BUBBLES;
use crate::engine::OP_EVENT_CANCELABLE;
use crate::engine::OP_EVENT_CANCEL_BUBBLE;
use crate::engine::OP_EVENT_CURRENT_TARGET;
use crate::engine::OP_EVENT_DEFAULT_PREVENTED;
use crate::engine::OP_EVENT_INIT_EVENT;
use crate::engine::OP_EVENT_IS_TRUSTED;
use crate::engine::OP_EVENT_PREVENT_DEFAULT;
use crate::engine::OP_EVENT_SET_CANCEL_BUBBLE;
use crate::engine::OP_EVENT_SRC_ELEMENT;
use crate::engine::OP_EVENT_STOP_IMMEDIATE_PROPAGATION;
use crate::engine::OP_EVENT_STOP_PROPAGATION;
use crate::engine::OP_EVENT_TARGET;
use crate::engine::OP_EVENT_TIME_STAMP;
use crate::engine::OP_EVENT_TYPE;
use crate::event_target::EventTarget;
use crate::event_target::EventTargetMethods;
use crate::exception_state::ExceptionState;
use crate::ExecutingContext;
use crate::OpaquePtr;
use crate::RustMethods;
use crate::RustValueStatus;

verus! {

/// Expected layout version of [`EventRustMethods`]; checked once, at
/// wrapper construction.
pub const EVENT_METHODS_VERSION: u64 = 1;

/// Fixed-layout method table for Event operations: the version, then one
/// entry-point address per accessor and mutator.
#[derive(Clone, Copy, PartialEq, Eq, Structural, Debug)]
pub struct EventRustMethods {
    pub version: u64,
    pub bubbles: usize,
    pub cancel_bubble: usize,
    pub set_cancel_bubble: usize,
    pub cancelable: usize,
    pub current_target: usize,
    pub default_prevented: usize,
    pub src_element: usize,
    pub target: usize,
    pub is_trusted: usize,
    pub time_stamp: usize,
    pub event_type: usize,
    pub init_event: usize,
    pub prevent_default: usize,
    pub stop_immediate_propagation: usize,
    pub stop_propagation: usize,
}

impl RustMethods for EventRustMethods {
}

impl EventRustMethods {
    /// The table matches the layout the native side was compiled with:
    /// right version, and every slot holding the matching entry point.
    pub open spec fn wf(&self) -> bool {
        &&& self.version == EVENT_METHODS_VERSION
        &&& self.bubbles == OP_EVENT_BUBBLES
        &&& self.cancel_bubble == OP_EVENT_CANCEL_BUBBLE
        &&& self.set_cancel_bubble == OP_EVENT_SET_CANCEL_BUBBLE
        &&& self.cancelable == OP_EVENT_CANCELABLE
        &&& self.current_target == OP_EVENT_CURRENT_TARGET
        &&& self.default_prevented == OP_EVENT_DEFAULT_PREVENTED
        &&& self.src_element == OP_EVENT_SRC_ELEMENT
        &&& self.target == OP_EVENT_TARGET
        &&& self.is_trusted == OP_EVENT_IS_TRUSTED
        &&& self.time_stamp == OP_EVENT_TIME_STAMP
        &&& self.event_type == OP_EVENT_TYPE
        &&& self.init_event == OP_EVENT_INIT_EVENT
        &&& self.prevent_default == OP_EVENT_PREVENT_DEFAULT
        &&& self.stop_immediate_propagation == OP_EVENT_STOP_IMMEDIATE_PROPAGATION
        &&& self.stop_propagation == OP_EVENT_STOP_PROPAGATION
    }
}

/// A safe wrapper for a native event occurrence: an opaque handle, the
/// method table to reach it through, the owning execution context, and the
/// status record the native side attached to the value.
#[derive(Clone, Copy, Debug)]
pub struct Event {
    pub ptr: OpaquePtr,
    pub context: ExecutingContext,
    pub method_pointer: EventRustMethods,
    pub status: RustValueStatus,
}

/// The capability contract of every event class.  Concrete event types
/// implement it by delegating to the event they embed.
pub trait EventMethods: Sized + Copy {
    /// The opaque handle of the wrapped occurrence.
    spec fn ev_handle(&self) -> usize;

    /// The execution context the handle belongs to.
    spec fn ev_ctx_id(&self) -> usize;

    /// The wrapper was built over method tables matching the native layout.
    spec fn ev_wf(&self) -> bool;

    /// Whether the occurrence bubbles up the tree.
    fn bubbles(&self, engine: &NativeEngine) -> (r: bool)
        requires
            self.ev_wf(),
            engine.wf(),
            self.ev_ctx_id() == engine.context_id,
            engine.valid_event(self.ev_handle()),
        ensures
            r == engine.event_at(self.ev_handle()).bubbles,
    ;

    /// Whether further propagation of the occurrence has been stopped.
    fn cancel_bubble(&self, engine: &NativeEngine) -> (r: bool)
        requires
            self.ev_wf(),
            engine.wf(),
            self.ev_ctx_id() == engine.context_id,
            engine.valid_event(self.ev_handle()),
        ensures
            r == engine.event_at(self.ev_handle()).cancel_bubble,
    ;

    /// Stops further propagation when `value` is set; clearing is ignored,
    /// so the flag only ever latches.  The native side reports no failure.
    fn set_cancel_bubble(
        &self,
        engine: &mut NativeEngine,
        value: bool,
        exception_state: &mut ExceptionState,
    ) -> (r: Result<(), String>)
        requires
            self.ev_wf(),
            old(engine).wf(),
            self.ev_ctx_id() == old(engine).context_id,
            old(engine).valid_event(self.ev_handle()),
            old(exception_state).is_clear(),
        ensures
            final(engine).wf(),
            final(engine).context_id == old(engine).context_id,
            final(engine).nodes@ == old(engine).nodes@,
            final(engine).listeners@ == old(engine).listeners@,
            final(engine).events@.len() == old(engine).events@.len(),
            final(exception_state).is_clear(),
            r is Ok,
            forall|k: usize|
                old(engine).valid_event(k) && k != self.ev_handle() ==> #[trigger] final(engine).event_at(k) == old(engine).event_at(k),
            same_event_core(
                old(engine).event_at(self.ev_handle()),
                final(engine).event_at(self.ev_handle()),
            ),
            final(engine).event_at(self.ev_handle()).cancel_bubble == (old(engine).event_at(
                self.ev_handle(),
            ).cancel_bubble || value),
            final(engine).event_at(self.ev_handle()).default_prevented == old(engine).event_at(
                self.ev_handle(),
            ).default_prevented,
    ;

    /// Whether the occurrence's default action can be prevented.
    fn cancelable(&self, engine: &NativeEngine) -> (r: bool)
        requires
            self.ev_wf(),
            engine.wf(),
            self.ev_ctx_id() == engine.context_id,
            engine.valid_event(self.ev_handle()),
        ensures
            r == engine.event_at(self.ev_handle()).cancelable,
    ;

    /// The target the occurrence is currently being delivered to.
    fn current_target(&self, engine: &NativeEngine) -> (t: EventTarget)
        requires
            self.ev_wf(),
            engine.wf(),
            self.ev_ctx_id() == engine.context_id,
            engine.valid_event(self.ev_handle()),
        ensures
            t.wf(),
            t.ctx_id() == engine.context_id,
            t.handle_addr() == engine.event_at(self.ev_handle()).current_target,
    ;

    /// Whether the occurrence's default action has been prevented.
    fn default_prevented(&self, engine: &NativeEngine) -> (r: bool)
        requires
            self.ev_wf(),
            engine.wf(),
            self.ev_ctx_id() == engine.context_id,
            engine.valid_event(self.ev_handle()),
        ensures
            r == engine.event_at(self.ev_handle()).default_prevented,
    ;

    /// The original target of the occurrence, under its historical name.
    fn src_element(&self, engine: &NativeEngine) -> (t: EventTarget)
        requires
            self.ev_wf(),
            engine.wf(),
            self.ev_ctx_id() == engine.context_id,
            engine.valid_event(self.ev_handle()),
        ensures
            t.wf(),
            t.ctx_id() == engine.context_id,
            t.handle_addr() == engine.event_at(self.ev_handle()).target,
    ;

    /// The original target of the occurrence.
    fn target(&self, engine: &NativeEngine) -> (t: EventTarget)
        requires
            self.ev_wf(),
            engine.wf(),
            self.ev_ctx_id() == engine.context_id,
            engine.valid_event(self.ev_handle()),
        ensures
            t.wf(),
            t.ctx_id() == engine.context_id,
            t.handle_addr() == engine.event_at(self.ev_handle()).target,
    ;

    /// Whether the occurrence was generated by the engine rather than
    /// synthesised by script.
    fn is_trusted(&self, engine: &NativeEngine) -> (r: bool)
        requires
            self.ev_wf(),
            engine.wf(),
            self.ev_ctx_id() == engine.context_id,
            engine.valid_event(self.ev_handle()),
        ensures
            r == engine.event_at(self.ev_handle()).is_trusted,
    ;

    /// When the occurrence happened, in milliseconds since the owning
    /// context started.
    fn time_stamp(&self, engine: &NativeEngine) -> (r: u64)
        requires
            self.ev_wf(),
            engine.wf(),
            self.ev_ctx_id() == engine.context_id,
            engine.valid_event(self.ev_handle()),
        ensures
            r == engine.event_at(self.ev_handle()).time_stamp,
    ;

    /// The occurrence's name, copied out of the native buffer.  The result
    /// is a function of the native object's current state alone, so calling
    /// twice without an intervening mutation returns equal strings.
    fn type_(&self, engine: &NativeEngine) -> (r: String)
        requires
            self.ev_wf(),
            engine.wf(),
            self.ev_ctx_id() == engine.context_id,
            engine.valid_event(self.ev_handle()),
        ensures
            r@ == engine.event_at(self.ev_handle()).event_type@,
    ;

    /// Resets the name and the bubbling and cancelation policy of the
    /// occurrence, leaving the rest of its state alone.  The name must be
    /// renderable as a null-terminated buffer.  The native side reports no
    /// failure.
    fn init_event(
        &self,
        engine: &mut NativeEngine,
        event_type: &str,
        bubbles: bool,
        cancelable: bool,
        exception_state: &mut ExceptionState,
    ) -> (r: Result<(), String>)
        requires
            self.ev_wf(),
            old(engine).wf(),
            self.ev_ctx_id() == old(engine).context_id,
            old(engine).valid_event(self.ev_handle()),
            old(exception_state).is_clear(),
            !event_type@.contains('\0'),
        ensures
            final(engine).wf(),
            final(engine).context_id == old(engine).context_id,
            final(engine).nodes@ == old(engine).nodes@,
            final(engine).listeners@ == old(engine).listeners@,
            final(engine).events@.len() == old(engine).events@.len(),
            final(exception_state).is_clear(),
            r is Ok,
            forall|k: usize|
                old(engine).valid_event(k) && k != self.ev_handle() ==> #[trigger] final(engine).event_at(k) == old(engine).event_at(k),
            ({
                let e0 = old(engine).event_at(self.ev_handle());
                let e1 = final(engine).event_at(self.ev_handle());
                e1.event_type@ == event_type@ && e1.bubbles == bubbles && e1.cancelable
                    == cancelable && e1.cancel_bubble == e0.cancel_bubble && e1.default_prevented
                    == e0.default_prevented && e1.is_trusted == e0.is_trusted && e1.time_stamp
                    == e0.time_stamp && e1.target == e0.target && e1.current_target
                    == e0.current_target && e1.new_url == e0.new_url && e1.old_url == e0.old_url
            }),
    ;

    /// Prevents the occurrence's default action.  The flag latches, but
    /// only on a cancelable occurrence: on a non-cancelable one the call
    /// still succeeds and changes nothing, by native policy.
    fn prevent_default(&self, engine: &mut NativeEngine, exception_state: &mut ExceptionState) -> (r:
        Result<(), String>)
        requires
            self.ev_wf(),
            old(engine).wf(),
            self.ev_ctx_id() == old(engine).context_id,
            old(engine).valid_event(self.ev_handle()),
            old(exception_state).is_clear(),
        ensures
            final(engine).wf(),
            final(engine).context_id == old(engine).context_id,
            final(engine).nodes@ == old(engine).nodes@,
            final(engine).listeners@ == old(engine).listeners@,
            final(engine).events@.len() == old(engine).events@.len(),
            final(exception_state).is_clear(),
            r is Ok,
            forall|k: usize|
                old(engine).valid_event(k) && k != self.ev_handle() ==> #[trigger] final(engine).event_at(k) == old(engine).event_at(k),
            same_event_core(
                old(engine).event_at(self.ev_handle()),
                final(engine).event_at(self.ev_handle()),
            ),
            final(engine).event_at(self.ev_handle()).default_prevented == (old(engine).event_at(
                self.ev_handle(),
            ).default_prevented || old(engine).event_at(self.ev_handle()).cancelable),
            final(engine).event_at(self.ev_handle()).cancel_bubble == old(engine).event_at(
                self.ev_handle(),
            ).cancel_bubble,
    ;

    /// Stops delivery to the remaining listeners and further propagation.
    /// The native side reports no failure.
    fn stop_immediate_propagation(
        &self,
        engine: &mut NativeEngine,
        exception_state: &mut ExceptionState,
    ) -> (r: Result<(), String>)
        requires
            self.ev_wf(),
            old(engine).wf(),
            self.ev_ctx_id() == old(engine).context_id,
            old(engine).valid_event(self.ev_handle()),
            old(exception_state).is_clear(),
        ensures
            final(engine).wf(),
            final(engine).context_id == old(engine).context_id,
            final(engine).nodes@ == old(engine).nodes@,
            final(engine).listeners@ == old(engine).listeners@,
            final(engine).events@.len() == old(engine).events@.len(),
            final(exception_state).is_clear(),
            r is Ok,
            forall|k: usize|
                old(engine).valid_event(k) && k != self.ev_handle() ==> #[trigger] final(engine).event_at(k) == old(engine).event_at(k),
            same_event_core(
                old(engine).event_at(self.ev_handle()),
                final(engine).event_at(self.ev_handle()),
            ),
            final(engine).event_at(self.ev_handle()).cancel_bubble,
            final(engine).event_at(self.ev_handle()).default_prevented == old(engine).event_at(
                self.ev_handle(),
            ).default_prevented,
    ;

    /// Stops further propagation of the occurrence.  The native side
    /// reports no failure.
    fn stop_propagation(&self, engine: &mut NativeEngine, exception_state: &mut ExceptionState) -> (
        r: Result<(), String>)
        requires
            self.ev_wf(),
            old(engine).wf(),
            self.ev_ctx_id() == old(engine).context_id,
            old(engine).valid_event(self.ev_handle()),
            old(exception_state).is_clear(),
        ensures
            final(engine).wf(),
            final(engine).context_id == old(engine).context_id,
            final(engine).nodes@ == old(engine).nodes@,
            final(engine).listeners@ == old(engine).listeners@,
            final(engine).events@.len() == old(engine).events@.len(),
            final(exception_state).is_clear(),
            r is Ok,
            forall|k: usize|
                old(engine).valid_event(k) && k != self.ev_handle() ==> #[trigger] final(engine).event_at(k) == old(engine).event_at(k),
            same_event_core(
                old(engine).event_at(self.ev_handle()),
                final(engine).event_at(self.ev_handle()),
            ),
            final(engine).event_at(self.ev_handle()).cancel_bubble,
            final(engine).event_at(self.ev_handle()).default_prevented == old(engine).event_at(
                self.ev_handle(),
            ).default_prevented,
    ;

    /// The shared Event facet of any event class that embeds one; total,
    /// never fails.
    fn as_event(&self) -> (e: &Event)
        requires
            self.ev_wf(),
        ensures
            e.method_pointer.wf(),
            e.ptr.addr == self.ev_handle(),
            e.context.id == self.ev_ctx_id(),
    ;
}

impl Event {
    /// Wraps a native event handle.  The handle, the context, the method
    /// table and the status record must come from the native engine, with
    /// the table matching the layout the engine was compiled with.
    pub fn initialize(
        ptr: OpaquePtr,
        context: ExecutingContext,
        method_pointer: &EventRustMethods,
        status: &RustValueStatus,
    ) -> (e: Event)
        requires
            method_pointer.wf(),
        ensures
            e.ev_wf(),
            e.ev_handle() == ptr.addr,
            e.ev_ctx_id() == context.id,
            e.status == *status,
    {
        Event { ptr, context, method_pointer: *method_pointer, status: *status }
    }

    /// The wrapped handle, for use in further boundary calls.
    pub fn ptr(&self) -> (p: OpaquePtr)
        ensures
            p.addr == self.ev_handle(),
    {
        self.ptr
    }

    /// The owning context, for looking up shared services.
    pub fn context(&self) -> (c: ExecutingContext)
        ensures
            c.id == self.ev_ctx_id(),
    {
        self.context
    }
}

impl EventMethods for Event {
    open spec fn ev_handle(&self) -> usize {
        self.ptr.addr
    }

    open spec fn ev_ctx_id(&self) -> usize {
        self.context.id
    }

    open spec fn ev_wf(&self) -> bool {
        self.method_pointer.wf()
    }

    fn bubbles(&self, engine: &NativeEngine) -> bool {
        engine.invoke_event_flag(self.method_pointer.bubbles, self.ptr.addr)
    }

    fn cancel_bubble(&self, engine: &NativeEngine) -> bool {
        engine.invoke_event_flag(self.method_pointer.cancel_bubble, self.ptr.addr)
    }

    fn set_cancel_bubble(
        &self,
        engine: &mut NativeEngine,
        value: bool,
        exception_state: &mut ExceptionState,
    ) -> Result<(), String> {
        engine.invoke_event_set_cancel_bubble(
            self.method_pointer.set_cancel_bubble,
            self.ptr.addr,
            value,
            exception_state,
        );
        if exception_state.has_exception() {
            Err(exception_state.message_string())
        } else {
            Ok(())
        }
    }

    fn cancelable(&self, engine: &NativeEngine) -> bool {
        engine.invoke_event_flag(self.method_pointer.cancelable, self.ptr.addr)
    }

    fn current_target(&self, engine: &NativeEngine) -> EventTarget {
        let addr = engine.invoke_event_handle(self.method_pointer.current_target, self.ptr.addr);
        EventTarget::initialize(
            OpaquePtr { addr },
            engine.context(),
            &engine.event_target_rust_methods(),
        )
    }

    fn default_prevented(&self, engine: &NativeEngine) -> bool {
        engine.invoke_event_flag(self.method_pointer.default_prevented, self.ptr.addr)
    }

    fn src_element(&self, engine: &NativeEngine) -> EventTarget {
        let addr = engine.invoke_event_handle(self.method_pointer.src_element, self.ptr.addr);
        EventTarget::initialize(
            OpaquePtr { addr },
            engine.context(),
            &engine.event_target_rust_methods(),
        )
    }

    fn target(&self, engine: &NativeEngine) -> EventTarget {
        let addr = engine.invoke_event_handle(self.method_pointer.target, self.ptr.addr);
        EventTarget::initialize(
            OpaquePtr { addr },
            engine.context(),
            &engine.event_target_rust_methods(),
        )
    }

    fn is_trusted(&self, engine: &NativeEngine) -> bool {
        engine.invoke_event_flag(self.method_pointer.is_trusted, self.ptr.addr)
    }

    fn time_stamp(&self, engine: &NativeEngine) -> u64 {
        engine.invoke_event_time_stamp(self.method_pointer.time_stamp, self.ptr.addr)
    }

    fn type_(&self, engine: &NativeEngine) -> String {
        let raw = engine.invoke_event_string(self.method_pointer.event_type, self.ptr.addr);
        proof {
            assert(event_nul_free(engine.events@[self.ptr.addr as int]));
            let content = engine.event_at(self.ptr.addr).event_type@;
            lemma_c_content_round_trip(content);
            assert(raw@.contains('\0')) by {
                assert(raw@[content.len() as int] == '\0');
            }
        }
        copy_c_string(raw.as_str())
    }

    fn init_event(
        &self,
        engine: &mut NativeEngine,
        event_type: &str,
        bubbles: bool,
        cancelable: bool,
        exception_state: &mut ExceptionState,
    ) -> Result<(), String> {
        engine.invoke_event_init(
            self.method_pointer.init_event,
            self.ptr.addr,
            event_type,
            bubbles,
            cancelable,
            exception_state,
        );
        if exception_state.has_exception() {
            Err(exception_state.message_string())
        } else {
            Ok(())
        }
    }

    fn prevent_default(
        &self,
        engine: &mut NativeEngine,
        exception_state: &mut ExceptionState,
    ) -> Result<(), String> {
        engine.invoke_event_mutate(
            self.method_pointer.prevent_default,
            self.ptr.addr,
            exception_state,
        );
        if exception_state.has_exception() {
            Err(exception_state.message_string())
        } else {
            Ok(())
        }
    }

    fn stop_immediate_propagation(
        &self,
        engine: &mut NativeEngine,
        exception_state: &mut ExceptionState,
    ) -> Result<(), String> {
        engine.invoke_event_mutate(
            self.method_pointer.stop_immediate_propagation,
            self.ptr.addr,
            exception_state,
        );
        if exception_state.has_exception() {
            Err(exception_state.message_string())
        } else {
            Ok(())
        }
    }

    fn stop_propagation(
        &self,
        engine: &mut NativeEngine,
        exception_state: &mut ExceptionState,
    ) -> Result<(), String> {
        engine.invoke_event_mutate(
            self.method_pointer.stop_propagation,
            self.ptr.addr,
            exception_state,
        );
        if exception_state.has_exception() {
            Err(exception_state.message_string())
        } else {
            Ok(())
        }
    }

    fn as_event(&self) -> &Event {
        self
    }
}

} // verus!
