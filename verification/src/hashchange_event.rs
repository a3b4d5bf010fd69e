//! The hash-change event: the navigation notification fired when the
//! fragment of the document's address changes.  It layers two textual
//! accessors, the old and the new address, over the Event capability it
//! embeds, following the same marshalling pattern: each accessor is a pure
//! read of the native object's current state, re-evaluated on every call.

use vstd::prelude::*;
use crate::c_string::copy_c_string;
use crate::c_string::lemma_c_content_round_trip;
use crate::engine::event_nul_free;
use crate::engine::NativeEngine;
use crate::engine::OP_HASHCHANGE_DUP_NEW_URL;
use crate::engine::OP_HASHCHANGE_DUP_OLD_URL;
use crate::engine::OP_HASHCHANGE_NEW_URL;
use crate::engine::OP_HASHCHANGE_OLD_URL;
use crate::event::Event;
use crate::event::EventMethods;
use crate::event::EventRustMethods;
use crate::event_target::EventTarget;
use crate::exception_state::ExceptionState;
use crate::ExecutingContext;
use crate::OpaquePtr;
use crate::RustMethods;
use crate::RustValueStatus;

verus! {

/// Expected layout version of [`HashchangeEventRustMethods`]; checked once,
/// at wrapper construction.
pub const HASHCHANGE_EVENT_METHODS_VERSION: u64 = 1;

/// Fixed-layout method table for hash-change operations: the version, the
/// embedded Event table, then the entry points of the two textual
/// accessors, each in a borrowing and a duplicate-returning variant.  The
/// binding uses the borrowing variants and copies the buffer out before the
/// call returns to its caller.
#[derive(Clone, Copy, PartialEq, Eq, Structural, Debug)]
pub struct HashchangeEventRustMethods {
    pub version: u64,
    pub event: EventRustMethods,
    pub new_url: usize,
    pub dup_new_url: usize,
    pub old_url: usize,
    pub dup_old_url: usize,
}

impl RustMethods for HashchangeEventRustMethods {
}

impl HashchangeEventRustMethods {
    /// The table matches the layout the native side was compiled with, its
    /// embedded Event table included.
    pub open spec fn wf(&self) -> bool {
        &&& self.version == HASHCHANGE_EVENT_METHODS_VERSION
        &&& self.event.wf()
        &&& self.new_url == OP_HASHCHANGE_NEW_URL
        &&& self.dup_new_url == OP_HASHCHANGE_DUP_NEW_URL
        &&& self.old_url == OP_HASHCHANGE_OLD_URL
        &&& self.dup_old_url == OP_HASHCHANGE_DUP_OLD_URL
    }
}

/// A safe wrapper for a native hash-change event: the Event facet it
/// embeds, plus the hash-change method table.
#[derive(Clone, Copy, Debug)]
pub struct HashchangeEvent {
    pub event: Event,
    pub method_pointer: HashchangeEventRustMethods,
}

/// The capability contract of hash-change events.
pub trait HashchangeEventMethods: EventMethods {
    /// The address navigated to, copied out of the native buffer.
    fn new_url(&self, engine: &NativeEngine) -> (r: String)
        requires
            self.ev_wf(),
            engine.wf(),
            self.ev_ctx_id() == engine.context_id,
            engine.valid_event(self.ev_handle()),
        ensures
            r@ == engine.event_at(self.ev_handle()).new_url@,
    ;

    /// The address navigated from, copied out of the native buffer.
    fn old_url(&self, engine: &NativeEngine) -> (r: String)
        requires
            self.ev_wf(),
            engine.wf(),
            self.ev_ctx_id() == engine.context_id,
            engine.valid_event(self.ev_handle()),
        ensures
            r@ == engine.event_at(self.ev_handle()).old_url@,
    ;

    /// The hash-change facet of any wrapper that embeds one; total, never
    /// fails.
    fn as_hashchange_event(&self) -> (e: &HashchangeEvent)
        requires
            self.ev_wf(),
        ensures
            e.method_pointer.wf(),
            e.event.ptr.addr == self.ev_handle(),
            e.event.context.id == self.ev_ctx_id(),
    ;
}

impl HashchangeEvent {
    /// Wraps a native hash-change handle.  Initialisation threads the
    /// embedded Event table through to build the embedded Event facet.
    pub fn initialize(
        ptr: OpaquePtr,
        context: ExecutingContext,
        method_pointer: &HashchangeEventRustMethods,
        status: &RustValueStatus,
    ) -> (e: HashchangeEvent)
        requires
            method_pointer.wf(),
        ensures
            e.ev_wf(),
            e.ev_handle() == ptr.addr,
            e.ev_ctx_id() == context.id,
            e.event.status == *status,
    {
        HashchangeEvent {
            event: Event::initialize(ptr, context, &method_pointer.event, status),
            method_pointer: *method_pointer,
        }
    }

    /// The wrapped handle, for use in further boundary calls.
    pub fn ptr(&self) -> (p: OpaquePtr)
        ensures
            p.addr == self.ev_handle(),
    {
        self.event.ptr()
    }

    /// The owning context, for looking up shared services.
    pub fn context(&self) -> (c: ExecutingContext)
        ensures
            c.id == self.ev_ctx_id(),
    {
        self.event.context()
    }

    /// The address navigated to, copied out of the native buffer.
    pub fn new_url(&self, engine: &NativeEngine) -> (r: String)
        requires
            self.ev_wf(),
            engine.wf(),
            self.ev_ctx_id() == engine.context_id,
            engine.valid_event(self.ev_handle()),
        ensures
            r@ == engine.event_at(self.ev_handle()).new_url@,
    {
        let raw = engine.invoke_event_string(self.method_pointer.new_url, self.event.ptr().addr);
        proof {
            assert(event_nul_free(engine.events@[self.ev_handle() as int]));
            let content = engine.event_at(self.ev_handle()).new_url@;
            lemma_c_content_round_trip(content);
            assert(raw@.contains('\0')) by {
                assert(raw@[content.len() as int] == '\0');
            }
        }
        copy_c_string(raw.as_str())
    }

    /// The address navigated from, copied out of the native buffer.
    pub fn old_url(&self, engine: &NativeEngine) -> (r: String)
        requires
            self.ev_wf(),
            engine.wf(),
            self.ev_ctx_id() == engine.context_id,
            engine.valid_event(self.ev_handle()),
        ensures
            r@ == engine.event_at(self.ev_handle()).old_url@,
    {
        let raw = engine.invoke_event_string(self.method_pointer.old_url, self.event.ptr().addr);
        proof {
            assert(event_nul_free(engine.events@[self.ev_handle() as int]));
            let content = engine.event_at(self.ev_handle()).old_url@;
            lemma_c_content_round_trip(content);
            assert(raw@.contains('\0')) by {
                assert(raw@[content.len() as int] == '\0');
            }
        }
        copy_c_string(raw.as_str())
    }
}

impl HashchangeEventMethods for HashchangeEvent {
    fn new_url(&self, engine: &NativeEngine) -> String {
        self.new_url(engine)
    }

    fn old_url(&self, engine: &NativeEngine) -> String {
        self.old_url(engine)
    }

    fn as_hashchange_event(&self) -> &HashchangeEvent {
        self
    }
}

impl EventMethods for HashchangeEvent {
    open spec fn ev_handle(&self) -> usize {
        self.event.ev_handle()
    }

    open spec fn ev_ctx_id(&self) -> usize {
        self.event.ev_ctx_id()
    }

    open spec fn ev_wf(&self) -> bool {
        self.event.ev_wf() && self.method_pointer.wf()
    }

    fn bubbles(&self, engine: &NativeEngine) -> bool {
        self.event.bubbles(engine)
    }

    fn cancel_bubble(&self, engine: &NativeEngine) -> bool {
        self.event.cancel_bubble(engine)
    }

    fn set_cancel_bubble(
        &self,
        engine: &mut NativeEngine,
        value: bool,
        exception_state: &mut ExceptionState,
    ) -> Result<(), String> {
        self.event.set_cancel_bubble(engine, value, exception_state)
    }

    fn cancelable(&self, engine: &NativeEngine) -> bool {
        self.event.cancelable(engine)
    }

    fn current_target(&self, engine: &NativeEngine) -> EventTarget {
        self.event.current_target(engine)
    }

    fn default_prevented(&self, engine: &NativeEngine) -> bool {
        self.event.default_prevented(engine)
    }

    fn src_element(&self, engine: &NativeEngine) -> EventTarget {
        self.event.src_element(engine)
    }

    fn target(&self, engine: &NativeEngine) -> EventTarget {
        self.event.target(engine)
    }

    fn is_trusted(&self, engine: &NativeEngine) -> bool {
        self.event.is_trusted(engine)
    }

    fn time_stamp(&self, engine: &NativeEngine) -> u64 {
        self.event.time_stamp(engine)
    }

    fn type_(&self, engine: &NativeEngine) -> String {
        self.event.type_(engine)
    }

    fn init_event(
        &self,
        engine: &mut NativeEngine,
        event_type: &str,
        bubbles: bool,
        cancelable: bool,
        exception_state: &mut ExceptionState,
    ) -> Result<(), String> {
        self.event.init_event(engine, event_type, bubbles, cancelable, exception_state)
    }

    fn prevent_default(
        &self,
        engine: &mut NativeEngine,
        exception_state: &mut ExceptionState,
    ) -> Result<(), String> {
        self.event.prevent_default(engine, exception_state)
    }

    fn stop_immediate_propagation(
        &self,
        engine: &mut NativeEngine,
        exception_state: &mut ExceptionState,
    ) -> Result<(), String> {
        self.event.stop_immediate_propagation(engine, exception_state)
    }

    fn stop_propagation(
        &self,
        engine: &mut NativeEngine,
        exception_state: &mut ExceptionState,
    ) -> Result<(), String> {
        self.event.stop_propagation(engine, exception_state)
    }

    fn as_event(&self) -> &Event {
        &self.event
    }
}

} // verus!
