//! The native side of the boundary, as a state machine over plain values.
//!
//! The real engine owns every node, event and listener registration and
//! exposes one entry point per method-table slot.  This module states that
//! documented behaviour exactly: an engine instance holds the tree, the
//! event store and the listener registry, each entry point is a function on
//! them, and its contract is the behaviour the wrappers are verified
//! against.  Entry points are reached by the address a method table carries,
//! the way a call through the table's function pointer would reach them;
//! handing an address that does not match the operation is a layout
//! mismatch, a contract violation this layer does not detect.

use vstd::prelude::*;
use vstd::string::StringExecFns;
use crate::c_string::raw_c_string;
use crate::event_target::AddEventListenerOptions;
use crate::event_target::EventListenerCallback;
use crate::event_target::EventTargetRustMethods;
use crate::event_target::EVENT_TARGET_METHODS_VERSION;
use crate::container_node::ContainerNodeRustMethods;
use crate::container_node::CONTAINER_NODE_METHODS_VERSION;
use crate::event::EventRustMethods;
use crate::event::EVENT_METHODS_VERSION;
use crate::exception_state::ExceptionState;
use crate::hashchange_event::HashchangeEventRustMethods;
use crate::hashchange_event::HASHCHANGE_EVENT_METHODS_VERSION;
use crate::node::NodeRustMethods;
use crate::node::NODE_METHODS_VERSION;
use crate::ExecutingContext;

verus! {

/// Entry-point address of EventTarget's listener registration.
pub const OP_TARGET_ADD_EVENT_LISTENER: usize = 0x11;

/// Entry-point address of EventTarget's listener removal.
pub const OP_TARGET_REMOVE_EVENT_LISTENER: usize = 0x12;

/// Entry-point address of EventTarget's dispatch operation.
pub const OP_TARGET_DISPATCH_EVENT: usize = 0x13;

/// Entry-point address of Node's child insertion.
pub const OP_NODE_APPEND_CHILD: usize = 0x21;

/// Entry-point address of Node's child removal.
pub const OP_NODE_REMOVE_CHILD: usize = 0x22;

/// Entry-point addresses of the Event accessors and mutators.
pub const OP_EVENT_BUBBLES: usize = 0x31;

pub const OP_EVENT_CANCEL_BUBBLE: usize = 0x32;

pub const OP_EVENT_SET_CANCEL_BUBBLE: usize = 0x33;

pub const OP_EVENT_CANCELABLE: usize = 0x34;

pub const OP_EVENT_CURRENT_TARGET: usize = 0x35;

pub const OP_EVENT_DEFAULT_PREVENTED: usize = 0x36;

pub const OP_EVENT_SRC_ELEMENT: usize = 0x37;

pub const OP_EVENT_TARGET: usize = 0x38;

pub const OP_EVENT_IS_TRUSTED: usize = 0x39;

pub const OP_EVENT_TIME_STAMP: usize = 0x3a;

pub const OP_EVENT_TYPE: usize = 0x3b;

pub const OP_EVENT_INIT_EVENT: usize = 0x3c;

pub const OP_EVENT_PREVENT_DEFAULT: usize = 0x3d;

pub const OP_EVENT_STOP_IMMEDIATE_PROPAGATION: usize = 0x3e;

pub const OP_EVENT_STOP_PROPAGATION: usize = 0x3f;

/// Entry-point addresses of the hash-change accessors, borrowing and
/// duplicate-returning variants.
pub const OP_HASHCHANGE_NEW_URL: usize = 0x41;

pub const OP_HASHCHANGE_DUP_NEW_URL: usize = 0x42;

pub const OP_HASHCHANGE_OLD_URL: usize = 0x43;

pub const OP_HASHCHANGE_DUP_OLD_URL: usize = 0x44;

/// A node as the engine owns it: its children, in document order.
pub struct NodeRecord {
    pub children: Vec<usize>,
}

/// An event occurrence as the engine owns it.  Textual fields never carry an
/// interior terminator: they must be renderable as null-terminated buffers.
pub struct EventRecord {
    pub event_type: String,
    pub bubbles: bool,
    pub cancelable: bool,
    pub cancel_bubble: bool,
    pub default_prevented: bool,
    pub is_trusted: bool,
    pub time_stamp: u64,
    pub target: usize,
    pub current_target: usize,
    pub new_url: String,
    pub old_url: String,
}

impl Clone for EventRecord {
    fn clone(&self) -> (r: Self)
        ensures
            r == *self,
    {
        EventRecord {
            event_type: self.event_type.clone(),
            bubbles: self.bubbles,
            cancelable: self.cancelable,
            cancel_bubble: self.cancel_bubble,
            default_prevented: self.default_prevented,
            is_trusted: self.is_trusted,
            time_stamp: self.time_stamp,
            target: self.target,
            current_target: self.current_target,
            new_url: self.new_url.clone(),
            old_url: self.old_url.clone(),
        }
    }
}

/// One registration in the engine's listener registry.
pub struct ListenerRecord {
    pub target: usize,
    pub name: String,
    pub callback: EventListenerCallback,
    pub capture: bool,
    pub once: bool,
    pub passive: bool,
}

impl Clone for ListenerRecord {
    fn clone(&self) -> (r: Self)
        ensures
            r == *self,
    {
        ListenerRecord {
            target: self.target,
            name: self.name.clone(),
            callback: self.callback,
            capture: self.capture,
            once: self.once,
            passive: self.passive,
        }
    }
}

/// Whether a registration fires for an occurrence named `name` dispatched on
/// `target`.
pub open spec fn listener_matches(l: ListenerRecord, target: usize, name: Seq<char>) -> bool {
    l.target == target && l.name@ == name
}

/// The callbacks a dispatch on `target` of an occurrence named `name`
/// invokes, in registration order.
pub open spec fn matching_callbacks(
    s: Seq<ListenerRecord>,
    target: usize,
    name: Seq<char>,
) -> Seq<EventListenerCallback>
    decreases s.len(),
{
    if s.len() == 0 {
        Seq::<EventListenerCallback>::empty()
    } else {
        (if listener_matches(s[0], target, name) {
            seq![s[0].callback]
        } else {
            Seq::<EventListenerCallback>::empty()
        }) + matching_callbacks(s.drop_first(), target, name)
    }
}

/// The registry after such a dispatch: registrations marked `once` that
/// fired are gone, everything else stays, in order.
pub open spec fn surviving_listeners(
    s: Seq<ListenerRecord>,
    target: usize,
    name: Seq<char>,
) -> Seq<ListenerRecord>
    decreases s.len(),
{
    if s.len() == 0 {
        Seq::<ListenerRecord>::empty()
    } else {
        (if listener_matches(s[0], target, name) && s[0].once {
            Seq::<ListenerRecord>::empty()
        } else {
            seq![s[0]]
        }) + surviving_listeners(s.drop_first(), target, name)
    }
}

/// The registry after unregistering `callback` for `name` on `target`:
/// every matching registration is gone, everything else stays, in order.
pub open spec fn without_listener(
    s: Seq<ListenerRecord>,
    target: usize,
    name: Seq<char>,
    callback: EventListenerCallback,
) -> Seq<ListenerRecord>
    decreases s.len(),
{
    if s.len() == 0 {
        Seq::<ListenerRecord>::empty()
    } else {
        (if listener_matches(s[0], target, name) && s[0].callback == callback {
            Seq::<ListenerRecord>::empty()
        } else {
            seq![s[0]]
        }) + without_listener(s.drop_first(), target, name, callback)
    }
}

/// How often `c` occurs in an invocation sequence.
pub open spec fn callback_count(s: Seq<EventListenerCallback>, c: EventListenerCallback) -> nat
    decreases s.len(),
{
    if s.len() == 0 {
        0
    } else {
        (if s[0] == c {
            1nat
        } else {
            0nat
        }) + callback_count(s.drop_first(), c)
    }
}

/// A child list with every occurrence of `v` taken out, order kept.
pub open spec fn remove_value(s: Seq<usize>, v: usize) -> Seq<usize>
    decreases s.len(),
{
    if s.len() == 0 {
        Seq::<usize>::empty()
    } else {
        (if s[0] == v {
            Seq::<usize>::empty()
        } else {
            seq![s[0]]
        }) + remove_value(s.drop_first(), v)
    }
}

pub proof fn lemma_matching_push(
    s: Seq<ListenerRecord>,
    l: ListenerRecord,
    target: usize,
    name: Seq<char>,
)
    ensures
        matching_callbacks(s.push(l), target, name) == matching_callbacks(s, target, name) + (
        if listener_matches(l, target, name) {
            seq![l.callback]
        } else {
            Seq::<EventListenerCallback>::empty()
        }),
    decreases s.len(),
{
    reveal_with_fuel(matching_callbacks, 2);
    let tail = (if listener_matches(l, target, name) {
        seq![l.callback]
    } else {
        Seq::<EventListenerCallback>::empty()
    });
    if s.len() == 0 {
        assert(s.push(l).drop_first() =~= Seq::<ListenerRecord>::empty());
        assert(s.push(l)[0] == l);
        assert(matching_callbacks(s.push(l), target, name) =~= matching_callbacks(s, target, name)
            + tail);
    } else {
        assert(s.push(l).drop_first() =~= s.drop_first().push(l));
        lemma_matching_push(s.drop_first(), l, target, name);
        assert(s.push(l)[0] == s[0]);
        assert(matching_callbacks(s.push(l), target, name) =~= matching_callbacks(s, target, name)
            + tail);
    }
}

pub proof fn lemma_surviving_push(
    s: Seq<ListenerRecord>,
    l: ListenerRecord,
    target: usize,
    name: Seq<char>,
)
    ensures
        surviving_listeners(s.push(l), target, name) == surviving_listeners(s, target, name) + (
        if listener_matches(l, target, name) && l.once {
            Seq::<ListenerRecord>::empty()
        } else {
            seq![l]
        }),
    decreases s.len(),
{
    reveal_with_fuel(surviving_listeners, 2);
    let tail = (if listener_matches(l, target, name) && l.once {
        Seq::<ListenerRecord>::empty()
    } else {
        seq![l]
    });
    if s.len() == 0 {
        assert(s.push(l).drop_first() =~= Seq::<ListenerRecord>::empty());
        assert(s.push(l)[0] == l);
        assert(surviving_listeners(s.push(l), target, name) =~= surviving_listeners(
            s,
            target,
            name,
        ) + tail);
    } else {
        assert(s.push(l).drop_first() =~= s.drop_first().push(l));
        lemma_surviving_push(s.drop_first(), l, target, name);
        assert(s.push(l)[0] == s[0]);
        assert(surviving_listeners(s.push(l), target, name) =~= surviving_listeners(
            s,
            target,
            name,
        ) + tail);
    }
}

pub proof fn lemma_without_push(
    s: Seq<ListenerRecord>,
    l: ListenerRecord,
    target: usize,
    name: Seq<char>,
    callback: EventListenerCallback,
)
    ensures
        without_listener(s.push(l), target, name, callback) == without_listener(
            s,
            target,
            name,
            callback,
        ) + (if listener_matches(l, target, name) && l.callback == callback {
            Seq::<ListenerRecord>::empty()
        } else {
            seq![l]
        }),
    decreases s.len(),
{
    reveal_with_fuel(without_listener, 2);
    let tail = (if listener_matches(l, target, name) && l.callback == callback {
        Seq::<ListenerRecord>::empty()
    } else {
        seq![l]
    });
    if s.len() == 0 {
        assert(s.push(l).drop_first() =~= Seq::<ListenerRecord>::empty());
        assert(s.push(l)[0] == l);
        assert(without_listener(s.push(l), target, name, callback) =~= without_listener(
            s,
            target,
            name,
            callback,
        ) + tail);
    } else {
        assert(s.push(l).drop_first() =~= s.drop_first().push(l));
        lemma_without_push(s.drop_first(), l, target, name, callback);
        assert(s.push(l)[0] == s[0]);
        assert(without_listener(s.push(l), target, name, callback) =~= without_listener(
            s,
            target,
            name,
            callback,
        ) + tail);
    }
}

pub proof fn lemma_remove_value_push(s: Seq<usize>, x: usize, v: usize)
    ensures
        remove_value(s.push(x), v) == remove_value(s, v) + (if x == v {
            Seq::<usize>::empty()
        } else {
            seq![x]
        }),
    decreases s.len(),
{
    reveal_with_fuel(remove_value, 2);
    let tail = (if x == v {
        Seq::<usize>::empty()
    } else {
        seq![x]
    });
    if s.len() == 0 {
        assert(s.push(x).drop_first() =~= Seq::<usize>::empty());
        assert(s.push(x)[0] == x);
        assert(remove_value(s.push(x), v) =~= remove_value(s, v) + tail);
    } else {
        assert(s.push(x).drop_first() =~= s.drop_first().push(x));
        lemma_remove_value_push(s.drop_first(), x, v);
        assert(s.push(x)[0] == s[0]);
        assert(remove_value(s.push(x), v) =~= remove_value(s, v) + tail);
    }
}

pub proof fn lemma_callback_count_concat(
    a: Seq<EventListenerCallback>,
    b: Seq<EventListenerCallback>,
    c: EventListenerCallback,
)
    ensures
        callback_count(a + b, c) == callback_count(a, c) + callback_count(b, c),
    decreases a.len(),
{
    reveal_with_fuel(callback_count, 2);
    if a.len() == 0 {
        assert(a + b =~= b);
    } else {
        assert((a + b).drop_first() =~= a.drop_first() + b);
        assert((a + b)[0] == a[0]);
        lemma_callback_count_concat(a.drop_first(), b, c);
    }
}

/// A listener registered once for a name is invoked exactly once by a
/// dispatch of a matching occurrence: registration adds one invocation, and
/// only one, for its callback.
pub proof fn lemma_registered_listener_invoked_once(
    s: Seq<ListenerRecord>,
    l: ListenerRecord,
    target: usize,
    name: Seq<char>,
)
    requires
        listener_matches(l, target, name),
        callback_count(matching_callbacks(s, target, name), l.callback) == 0,
    ensures
        callback_count(matching_callbacks(s.push(l), target, name), l.callback) == 1,
{
    reveal_with_fuel(callback_count, 2);
    lemma_matching_push(s, l, target, name);
    lemma_callback_count_concat(matching_callbacks(s, target, name), seq![l.callback], l.callback);
    assert(callback_count(seq![l.callback], l.callback) == 1) by {
        assert(seq![l.callback].drop_first() =~= Seq::<EventListenerCallback>::empty());
    }
}

/// After a callback is unregistered for a name on a target, a dispatch of a
/// matching occurrence never invokes it again.
pub proof fn lemma_removed_listener_not_invoked(
    s: Seq<ListenerRecord>,
    target: usize,
    name: Seq<char>,
    callback: EventListenerCallback,
)
    ensures
        callback_count(
            matching_callbacks(without_listener(s, target, name, callback), target, name),
            callback,
        ) == 0,
    decreases s.len(),
{
    reveal_with_fuel(matching_callbacks, 2);
    reveal_with_fuel(without_listener, 2);
    reveal_with_fuel(callback_count, 2);
    if s.len() == 0 {
    } else {
        lemma_removed_listener_not_invoked(s.drop_first(), target, name, callback);
        let rest = without_listener(s.drop_first(), target, name, callback);
        if listener_matches(s[0], target, name) && s[0].callback == callback {
            assert(without_listener(s, target, name, callback) =~= rest);
        } else {
            assert(without_listener(s, target, name, callback) =~= seq![s[0]] + rest);
            assert((seq![s[0]] + rest).drop_first() =~= rest);
            assert((seq![s[0]] + rest)[0] == s[0]);
            if listener_matches(s[0], target, name) {
                assert(s[0].callback != callback);
                assert(matching_callbacks(seq![s[0]] + rest, target, name) =~= seq![s[0].callback]
                    + matching_callbacks(rest, target, name));
                lemma_callback_count_concat(
                    seq![s[0].callback],
                    matching_callbacks(rest, target, name),
                    callback,
                );
                assert(callback_count(seq![s[0].callback], callback) == 0) by {
                    assert(seq![s[0].callback].drop_first() =~= Seq::<
                        EventListenerCallback,
                    >::empty());
                }
            } else {
                assert(matching_callbacks(seq![s[0]] + rest, target, name) =~= matching_callbacks(
                    rest,
                    target,
                    name,
                ));
            }
        }
    }
}

/// An event's textual fields can cross the boundary: none holds an interior
/// terminator.
pub open spec fn event_nul_free(e: EventRecord) -> bool {
    &&& !e.event_type@.contains('\0')
    &&& !e.new_url@.contains('\0')
    &&& !e.old_url@.contains('\0')
}

/// The fields of an event that the flag mutators leave alone.
pub open spec fn same_event_core(a: EventRecord, b: EventRecord) -> bool {
    &&& b.event_type == a.event_type
    &&& b.bubbles == a.bubbles
    &&& b.cancelable == a.cancelable
    &&& b.is_trusted == a.is_trusted
    &&& b.time_stamp == a.time_stamp
    &&& b.target == a.target
    &&& b.current_target == a.current_target
    &&& b.new_url == a.new_url
    &&& b.old_url == a.old_url
}

/// One running engine instance: the owner of every node, event and listener
/// registration, and the validity domain of every handle it issues.  Handles
/// are addresses; address zero is never issued, standing for the null
/// pointer.
pub struct NativeEngine {
    pub context_id: usize,
    pub nodes: Vec<NodeRecord>,
    pub events: Vec<EventRecord>,
    pub listeners: Vec<ListenerRecord>,
}

impl NativeEngine {
    /// The engine's own invariant: the null slots exist and every stored
    /// event can be marshalled out.
    pub open spec fn wf(self) -> bool {
        &&& self.nodes@.len() >= 1
        &&& self.events@.len() >= 1
        &&& forall|k: int|
            0 <= k < self.events@.len() ==> event_nul_free(#[trigger] self.events@[k])
    }

    /// `h` is a live node handle of this instance.
    pub open spec fn valid_node(self, h: usize) -> bool {
        1 <= h < self.nodes@.len()
    }

    /// `h` is a live event handle of this instance.
    pub open spec fn valid_event(self, h: usize) -> bool {
        1 <= h < self.events@.len()
    }

    /// The children of node `h`, in document order.
    pub open spec fn children_of(self, h: usize) -> Seq<usize> {
        self.nodes@[h as int].children@
    }

    /// The state of event `h`.
    pub open spec fn event_at(self, h: usize) -> EventRecord {
        self.events@[h as int]
    }

    /// A fresh engine instance with no live handles.
    pub fn new(context_id: usize) -> (e: NativeEngine)
        ensures
            e.wf(),
            e.context_id == context_id,
            e.nodes@.len() == 1,
            e.events@.len() == 1,
            e.listeners@.len() == 0,
    {
        let mut nodes: Vec<NodeRecord> = Vec::new();
        nodes.push(NodeRecord { children: Vec::new() });
        let mut events: Vec<EventRecord> = Vec::new();
        let nul = EventRecord {
            event_type: String::new(),
            bubbles: false,
            cancelable: false,
            cancel_bubble: false,
            default_prevented: false,
            is_trusted: false,
            time_stamp: 0,
            target: 0,
            current_target: 0,
            new_url: String::new(),
            old_url: String::new(),
        };
        events.push(nul);
        NativeEngine { context_id, nodes, events, listeners: Vec::new() }
    }

    /// The context handle this instance issues to the safe side.
    pub fn context(&self) -> (c: ExecutingContext)
        ensures
            c.id == self.context_id,
    {
        ExecutingContext { id: self.context_id }
    }

    /// The EventTarget method table, as the native side supplies it at
    /// wrapper construction time.
    pub fn event_target_rust_methods(&self) -> (t: EventTargetRustMethods)
        ensures
            t.wf(),
    {
        EventTargetRustMethods {
            version: EVENT_TARGET_METHODS_VERSION,
            add_event_listener: OP_TARGET_ADD_EVENT_LISTENER,
            remove_event_listener: OP_TARGET_REMOVE_EVENT_LISTENER,
            dispatch_event: OP_TARGET_DISPATCH_EVENT,
        }
    }

    /// The Node method table, as the native side supplies it at wrapper
    /// construction time, with the EventTarget base table embedded.
    pub fn node_rust_methods(&self) -> (t: NodeRustMethods)
        ensures
            t.wf(),
    {
        NodeRustMethods {
            version: NODE_METHODS_VERSION,
            event_target: self.event_target_rust_methods(),
            append_child: OP_NODE_APPEND_CHILD,
            remove_child: OP_NODE_REMOVE_CHILD,
        }
    }

    /// The ContainerNode method table, as the native side supplies it at
    /// wrapper construction time, with the Node table embedded.
    pub fn container_node_rust_methods(&self) -> (t: ContainerNodeRustMethods)
        ensures
            t.wf(),
    {
        ContainerNodeRustMethods {
            version: CONTAINER_NODE_METHODS_VERSION,
            node: self.node_rust_methods(),
        }
    }

    /// The Event method table, as the native side supplies it at wrapper
    /// construction time.
    pub fn event_rust_methods(&self) -> (t: EventRustMethods)
        ensures
            t.wf(),
    {
        EventRustMethods {
            version: EVENT_METHODS_VERSION,
            bubbles: OP_EVENT_BUBBLES,
            cancel_bubble: OP_EVENT_CANCEL_BUBBLE,
            set_cancel_bubble: OP_EVENT_SET_CANCEL_BUBBLE,
            cancelable: OP_EVENT_CANCELABLE,
            current_target: OP_EVENT_CURRENT_TARGET,
            default_prevented: OP_EVENT_DEFAULT_PREVENTED,
            src_element: OP_EVENT_SRC_ELEMENT,
            target: OP_EVENT_TARGET,
            is_trusted: OP_EVENT_IS_TRUSTED,
            time_stamp: OP_EVENT_TIME_STAMP,
            event_type: OP_EVENT_TYPE,
            init_event: OP_EVENT_INIT_EVENT,
            prevent_default: OP_EVENT_PREVENT_DEFAULT,
            stop_immediate_propagation: OP_EVENT_STOP_IMMEDIATE_PROPAGATION,
            stop_propagation: OP_EVENT_STOP_PROPAGATION,
        }
    }

    /// The hash-change method table, as the native side supplies it at
    /// wrapper construction time, with the Event table embedded.
    pub fn hashchange_event_rust_methods(&self) -> (t: HashchangeEventRustMethods)
        ensures
            t.wf(),
    {
        HashchangeEventRustMethods {
            version: HASHCHANGE_EVENT_METHODS_VERSION,
            event: self.event_rust_methods(),
            new_url: OP_HASHCHANGE_NEW_URL,
            dup_new_url: OP_HASHCHANGE_DUP_NEW_URL,
            old_url: OP_HASHCHANGE_OLD_URL,
            dup_old_url: OP_HASHCHANGE_DUP_OLD_URL,
        }
    }

    /// Mints a node with no children and returns its handle.
    pub fn create_node(&mut self) -> (h: usize)
        requires
            old(self).wf(),
        ensures
            final(self).wf(),
            final(self).context_id == old(self).context_id,
            final(self).events@ == old(self).events@,
            final(self).listeners@ == old(self).listeners@,
            final(self).nodes@.len() == old(self).nodes@.len() + 1,
            h == old(self).nodes@.len(),
            final(self).valid_node(h),
            final(self).children_of(h).len() == 0,
            forall|q: usize|
                old(self).valid_node(q) ==> final(self).children_of(q) == old(self).children_of(q),
    {
        let h = self.nodes.len();
        self.nodes.push(NodeRecord { children: Vec::new() });
        h
    }

    /// Registry entry point: appends a registration.  Reached through the
    /// address in [`EventTargetRustMethods::add_event_listener`].
    pub fn invoke_add_event_listener(
        &mut self,
        op: usize,
        target: usize,
        event_name: &str,
        callback: EventListenerCallback,
        options: &AddEventListenerOptions,
        exception_state: &mut ExceptionState,
    )
        requires
            op == OP_TARGET_ADD_EVENT_LISTENER,
            old(self).wf(),
            old(self).valid_node(target),
            old(exception_state).is_clear(),
        ensures
            final(self).wf(),
            final(self).context_id == old(self).context_id,
            final(self).nodes@ == old(self).nodes@,
            final(self).events@ == old(self).events@,
            *final(exception_state) == *old(exception_state),
            final(self).listeners@.len() == old(self).listeners@.len() + 1,
            final(self).listeners@.drop_last() == old(self).listeners@,
            ({
                let l = final(self).listeners@.last();
                l.target == target && l.name@ == event_name@ && l.callback == callback && l.capture
                    == options.capture && l.once == options.once && l.passive == options.passive
            }),
    {
        let rec = ListenerRecord {
            target,
            name: String::from_str(event_name),
            callback,
            capture: options.capture,
            once: options.once,
            passive: options.passive,
        };
        self.listeners.push(rec);
        proof {
            assert(self.listeners@.drop_last() =~= old(self).listeners@);
        }
    }

    /// Registry entry point: removes every registration of `callback` for
    /// `event_name` on `target`.  Reached through the address in
    /// [`EventTargetRustMethods::remove_event_listener`].
    pub fn invoke_remove_event_listener(
        &mut self,
        op: usize,
        target: usize,
        event_name: &str,
        callback: EventListenerCallback,
        exception_state: &mut ExceptionState,
    )
        requires
            op == OP_TARGET_REMOVE_EVENT_LISTENER,
            old(self).wf(),
            old(self).valid_node(target),
            old(exception_state).is_clear(),
        ensures
            final(self).wf(),
            final(self).context_id == old(self).context_id,
            final(self).nodes@ == old(self).nodes@,
            final(self).events@ == old(self).events@,
            *final(exception_state) == *old(exception_state),
            final(self).listeners@ == without_listener(
                old(self).listeners@,
                target,
                event_name@,
                callback,
            ),
    {
        let name_s = String::from_str(event_name);
        let n = self.listeners.len();
        let mut retained: Vec<ListenerRecord> = Vec::new();
        let mut i: usize = 0;
        while i < n
            invariant
                *self == *old(self),
                n == self.listeners@.len(),
                0 <= i <= n,
                name_s@ == event_name@,
                retained@ == without_listener(
                    self.listeners@.take(i as int),
                    target,
                    event_name@,
                    callback,
                ),
            decreases n - i,
        {
            proof {
                assert(self.listeners@.take(i as int + 1) =~= self.listeners@.take(
                    i as int,
                ).push(self.listeners@[i as int]));
                lemma_without_push(
                    self.listeners@.take(i as int),
                    self.listeners@[i as int],
                    target,
                    event_name@,
                    callback,
                );
            }
            let l = &self.listeners[i];
            if !(l.target == target && l.name == name_s && l.callback == callback) {
                retained.push(l.clone());
            }
            proof {
                assert(retained@ =~= without_listener(
                    self.listeners@.take(i as int + 1),
                    target,
                    event_name@,
                    callback,
                ));
            }
            i = i + 1;
        }
        proof {
            assert(self.listeners@.take(n as int) =~= self.listeners@);
        }
        self.listeners = retained;
    }

    /// Dispatch entry point: delivers the occurrence `event` to `target`,
    /// returning the callbacks to invoke in registration order and dropping
    /// the fired registrations that were marked `once`.
    pub fn dispatch_event(&mut self, target: usize, event: usize) -> (fired: Vec<
        EventListenerCallback,
    >)
        requires
            old(self).wf(),
            old(self).valid_node(target),
            old(self).valid_event(event),
        ensures
            final(self).wf(),
            final(self).context_id == old(self).context_id,
            final(self).nodes@ == old(self).nodes@,
            final(self).events@ == old(self).events@,
            fired@ == matching_callbacks(
                old(self).listeners@,
                target,
                old(self).event_at(event).event_type@,
            ),
            final(self).listeners@ == surviving_listeners(
                old(self).listeners@,
                target,
                old(self).event_at(event).event_type@,
            ),
    {
        let name = self.events[event].event_type.clone();
        let n = self.listeners.len();
        let mut fired: Vec<EventListenerCallback> = Vec::new();
        let mut retained: Vec<ListenerRecord> = Vec::new();
        let mut i: usize = 0;
        while i < n
            invariant
                *self == *old(self),
                n == self.listeners@.len(),
                0 <= i <= n,
                name@ == old(self).event_at(event).event_type@,
                fired@ == matching_callbacks(self.listeners@.take(i as int), target, name@),
                retained@ == surviving_listeners(self.listeners@.take(i as int), target, name@),
            decreases n - i,
        {
            proof {
                assert(self.listeners@.take(i as int + 1) =~= self.listeners@.take(
                    i as int,
                ).push(self.listeners@[i as int]));
                lemma_matching_push(
                    self.listeners@.take(i as int),
                    self.listeners@[i as int],
                    target,
                    name@,
                );
                lemma_surviving_push(
                    self.listeners@.take(i as int),
                    self.listeners@[i as int],
                    target,
                    name@,
                );
            }
            let l = &self.listeners[i];
            if l.target == target && l.name == name {
                fired.push(l.callback);
                if !l.once {
                    retained.push(l.clone());
                }
            } else {
                retained.push(l.clone());
            }
            proof {
                assert(fired@ =~= matching_callbacks(
                    self.listeners@.take(i as int + 1),
                    target,
                    name@,
                ));
                assert(retained@ =~= surviving_listeners(
                    self.listeners@.take(i as int + 1),
                    target,
                    name@,
                ));
            }
            i = i + 1;
        }
        proof {
            assert(self.listeners@.take(n as int) =~= self.listeners@);
        }
        self.listeners = retained;
        fired
    }

    /// Tree entry point: child insertion and removal, reached through the
    /// addresses a Node method table carries.  Insertion appends `child` as
    /// the last child of `parent`, moving it there if it already was one;
    /// inserting a node into itself is rejected with a native exception.
    /// Removal detaches `child`; removing a node that is not a child is
    /// rejected with a native exception.  On failure the tree is unchanged
    /// and the returned handle is null.
    pub fn invoke_node_op(
        &mut self,
        op: usize,
        parent: usize,
        child: usize,
        exception_state: &mut ExceptionState,
    ) -> (r: usize)
        requires
            op == OP_NODE_APPEND_CHILD || op == OP_NODE_REMOVE_CHILD,
            old(self).wf(),
            old(self).valid_node(parent),
            old(self).valid_node(child),
            old(exception_state).is_clear(),
        ensures
            final(self).wf(),
            final(self).context_id == old(self).context_id,
            final(self).nodes@.len() == old(self).nodes@.len(),
            final(self).events@ == old(self).events@,
            final(self).listeners@ == old(self).listeners@,
            forall|q: usize|
                old(self).valid_node(q) && q != parent ==> #[trigger] final(self).children_of(q)
                    == old(self).children_of(q),
            op == OP_NODE_APPEND_CHILD && parent != child ==> r == child && *final(exception_state) == *old(exception_state) && final(self).children_of(parent) == remove_value(
                old(self).children_of(parent),
                child,
            ).push(child),
            op == OP_NODE_APPEND_CHILD && parent == child ==> r == 0 && *final(self) == *old(self)
                && !final(exception_state).is_clear() && final(exception_state).failure_message()
                == "HierarchyRequestError: a node cannot be inserted into itself"@,
            op == OP_NODE_REMOVE_CHILD && old(self).children_of(parent).contains(child) ==> r
                == child && *final(exception_state) == *old(exception_state) && final(self).children_of(parent) == remove_value(old(self).children_of(parent), child),
            op == OP_NODE_REMOVE_CHILD && !old(self).children_of(parent).contains(child) ==> r == 0
                && *final(self) == *old(self) && !final(exception_state).is_clear() && final(exception_state).failure_message()
                == "NotFoundError: the node to be removed is not a child of this node"@,
    {
        if op == OP_NODE_APPEND_CHILD {
            if parent == child {
                exception_state.set_failure(
                    String::from_str(
                        "HierarchyRequestError: a node cannot be inserted into itself",
                    ),
                );
                0
            } else {
                let mut nv = remove_value_exec(&self.nodes[parent].children, child);
                nv.push(child);
                vec_replace(&mut self.nodes, parent, NodeRecord { children: nv });
                child
            }
        } else {
            if contains_value(&self.nodes[parent].children, child) {
                let nv = remove_value_exec(&self.nodes[parent].children, child);
                vec_replace(&mut self.nodes, parent, NodeRecord { children: nv });
                child
            } else {
                exception_state.set_failure(
                    String::from_str(
                        "NotFoundError: the node to be removed is not a child of this node",
                    ),
                );
                0
            }
        }
    }

    /// Event store entry points for the boolean accessors, reached through
    /// the addresses an Event method table carries.
    pub fn invoke_event_flag(&self, op: usize, h: usize) -> (r: bool)
        requires
            self.wf(),
            self.valid_event(h),
            op == OP_EVENT_BUBBLES || op == OP_EVENT_CANCEL_BUBBLE || op == OP_EVENT_CANCELABLE
                || op == OP_EVENT_DEFAULT_PREVENTED || op == OP_EVENT_IS_TRUSTED,
        ensures
            op == OP_EVENT_BUBBLES ==> r == self.event_at(h).bubbles,
            op == OP_EVENT_CANCEL_BUBBLE ==> r == self.event_at(h).cancel_bubble,
            op == OP_EVENT_CANCELABLE ==> r == self.event_at(h).cancelable,
            op == OP_EVENT_DEFAULT_PREVENTED ==> r == self.event_at(h).default_prevented,
            op == OP_EVENT_IS_TRUSTED ==> r == self.event_at(h).is_trusted,
    {
        let rec = &self.events[h];
        if op == OP_EVENT_BUBBLES {
            rec.bubbles
        } else if op == OP_EVENT_CANCEL_BUBBLE {
            rec.cancel_bubble
        } else if op == OP_EVENT_CANCELABLE {
            rec.cancelable
        } else if op == OP_EVENT_DEFAULT_PREVENTED {
            rec.default_prevented
        } else {
            rec.is_trusted
        }
    }

    /// Event store entry points for the handle-returning accessors.  The
    /// source element is the original target of the occurrence.
    pub fn invoke_event_handle(&self, op: usize, h: usize) -> (r: usize)
        requires
            self.wf(),
            self.valid_event(h),
            op == OP_EVENT_TARGET || op == OP_EVENT_CURRENT_TARGET || op == OP_EVENT_SRC_ELEMENT,
        ensures
            op == OP_EVENT_TARGET ==> r == self.event_at(h).target,
            op == OP_EVENT_CURRENT_TARGET ==> r == self.event_at(h).current_target,
            op == OP_EVENT_SRC_ELEMENT ==> r == self.event_at(h).target,
    {
        let rec = &self.events[h];
        if op == OP_EVENT_CURRENT_TARGET {
            rec.current_target
        } else {
            rec.target
        }
    }

    /// Event store entry point for the time stamp, in milliseconds since the
    /// owning context started.
    pub fn invoke_event_time_stamp(&self, op: usize, h: usize) -> (r: u64)
        requires
            self.wf(),
            self.valid_event(h),
            op == OP_EVENT_TIME_STAMP,
        ensures
            r == self.event_at(h).time_stamp,
    {
        self.events[h].time_stamp
    }

    /// Event store entry points for the textual accessors: each returns its
    /// field rendered as a null-terminated buffer, as the characters behind
    /// the pointer the native side hands back.
    pub fn invoke_event_string(&self, op: usize, h: usize) -> (raw: String)
        requires
            self.wf(),
            self.valid_event(h),
            op == OP_EVENT_TYPE || op == OP_HASHCHANGE_NEW_URL || op == OP_HASHCHANGE_OLD_URL,
        ensures
            op == OP_EVENT_TYPE ==> raw@ == self.event_at(h).event_type@ + seq!['\0'],
            op == OP_HASHCHANGE_NEW_URL ==> raw@ == self.event_at(h).new_url@ + seq!['\0'],
            op == OP_HASHCHANGE_OLD_URL ==> raw@ == self.event_at(h).old_url@ + seq!['\0'],
    {
        let rec = &self.events[h];
        if op == OP_EVENT_TYPE {
            raw_c_string(&rec.event_type)
        } else if op == OP_HASHCHANGE_NEW_URL {
            raw_c_string(&rec.new_url)
        } else {
            raw_c_string(&rec.old_url)
        }
    }

    /// Event store entry point for the cancel-bubble setter.  Setting the
    /// flag stops further propagation; clearing it is ignored, so the flag
    /// only ever latches.
    pub fn invoke_event_set_cancel_bubble(
        &mut self,
        op: usize,
        h: usize,
        value: bool,
        exception_state: &mut ExceptionState,
    )
        requires
            op == OP_EVENT_SET_CANCEL_BUBBLE,
            old(self).wf(),
            old(self).valid_event(h),
            old(exception_state).is_clear(),
        ensures
            final(self).wf(),
            final(self).context_id == old(self).context_id,
            final(self).nodes@ == old(self).nodes@,
            final(self).listeners@ == old(self).listeners@,
            final(self).events@.len() == old(self).events@.len(),
            *final(exception_state) == *old(exception_state),
            forall|k: usize|
                old(self).valid_event(k) && k != h ==> #[trigger] final(self).event_at(k) == old(self).event_at(k),
            same_event_core(old(self).event_at(h), final(self).event_at(h)),
            final(self).event_at(h).cancel_bubble == (old(self).event_at(h).cancel_bubble
                || value),
            final(self).event_at(h).default_prevented == old(self).event_at(h).default_prevented,
    {
        let mut rec = self.events[h].clone();
        rec.cancel_bubble = rec.cancel_bubble || value;
        let ghost pre = *self;
        vec_replace(&mut self.events, h, rec);
        proof {
            self.lemma_event_update_wf(pre, h);
        }
    }

    /// Event store entry points for the parameterless mutators.  Preventing
    /// the default latches the default-prevented flag, but only on a
    /// cancelable occurrence: on a non-cancelable one the call succeeds and
    /// changes nothing.  Stopping propagation, immediately or not, latches
    /// the cancel-bubble flag.
    pub fn invoke_event_mutate(&mut self, op: usize, h: usize, exception_state: &mut ExceptionState)
        requires
            op == OP_EVENT_PREVENT_DEFAULT || op == OP_EVENT_STOP_PROPAGATION || op
                == OP_EVENT_STOP_IMMEDIATE_PROPAGATION,
            old(self).wf(),
            old(self).valid_event(h),
            old(exception_state).is_clear(),
        ensures
            final(self).wf(),
            final(self).context_id == old(self).context_id,
            final(self).nodes@ == old(self).nodes@,
            final(self).listeners@ == old(self).listeners@,
            final(self).events@.len() == old(self).events@.len(),
            *final(exception_state) == *old(exception_state),
            forall|k: usize|
                old(self).valid_event(k) && k != h ==> #[trigger] final(self).event_at(k) == old(self).event_at(k),
            same_event_core(old(self).event_at(h), final(self).event_at(h)),
            op == OP_EVENT_PREVENT_DEFAULT ==> final(self).event_at(h).default_prevented == (old(self).event_at(h).default_prevented || old(self).event_at(h).cancelable) && final(self).event_at(h).cancel_bubble == old(self).event_at(h).cancel_bubble,
            op == OP_EVENT_STOP_PROPAGATION || op == OP_EVENT_STOP_IMMEDIATE_PROPAGATION ==> final(self).event_at(h).cancel_bubble && final(self).event_at(h).default_prevented == old(self).event_at(h).default_prevented,
    {
        let mut rec = self.events[h].clone();
        if op == OP_EVENT_PREVENT_DEFAULT {
            rec.default_prevented = rec.default_prevented || rec.cancelable;
        } else {
            rec.cancel_bubble = true;
        }
        let ghost pre = *self;
        vec_replace(&mut self.events, h, rec);
        proof {
            self.lemma_event_update_wf(pre, h);
        }
    }

    /// Event store entry point for re-initialisation: resets the name and
    /// the bubbling and cancelation policy of an occurrence, leaving the
    /// rest of its state alone.
    pub fn invoke_event_init(
        &mut self,
        op: usize,
        h: usize,
        event_type: &str,
        bubbles: bool,
        cancelable: bool,
        exception_state: &mut ExceptionState,
    )
        requires
            op == OP_EVENT_INIT_EVENT,
            old(self).wf(),
            old(self).valid_event(h),
            old(exception_state).is_clear(),
            !event_type@.contains('\0'),
        ensures
            final(self).wf(),
            final(self).context_id == old(self).context_id,
            final(self).nodes@ == old(self).nodes@,
            final(self).listeners@ == old(self).listeners@,
            final(self).events@.len() == old(self).events@.len(),
            *final(exception_state) == *old(exception_state),
            forall|k: usize|
                old(self).valid_event(k) && k != h ==> #[trigger] final(self).event_at(k) == old(self).event_at(k),
            ({
                let e0 = old(self).event_at(h);
                let e1 = final(self).event_at(h);
                e1.event_type@ == event_type@ && e1.bubbles == bubbles && e1.cancelable
                    == cancelable && e1.cancel_bubble == e0.cancel_bubble && e1.default_prevented
                    == e0.default_prevented && e1.is_trusted == e0.is_trusted && e1.time_stamp
                    == e0.time_stamp && e1.target == e0.target && e1.current_target
                    == e0.current_target && e1.new_url == e0.new_url && e1.old_url == e0.old_url
            }),
    {
        let mut rec = self.events[h].clone();
        rec.event_type = String::from_str(event_type);
        rec.bubbles = bubbles;
        rec.cancelable = cancelable;
        let ghost pre = *self;
        vec_replace(&mut self.events, h, rec);
        proof {
            self.lemma_event_update_wf(pre, h);
        }
    }

    /// The well-formedness of the event store survives replacing one event
    /// with one whose textual fields are still terminator-free.
    proof fn lemma_event_update_wf(&self, pre: NativeEngine, h: usize)
        requires
            pre.wf(),
            pre.valid_event(h),
            self.events@.len() == pre.events@.len(),
            forall|k: int|
                0 <= k < pre.events@.len() && k != h ==> #[trigger] self.events@[k]
                    == pre.events@[k],
            event_nul_free(self.events@[h as int]),
        ensures
            forall|k: int|
                0 <= k < self.events@.len() ==> event_nul_free(#[trigger] self.events@[k]),
    {
    }

    /// Mints an occurrence with the given state and a null source and
    /// returns its handle.  The target must be a live node; the textual
    /// fields must be renderable as null-terminated buffers.
    pub fn create_hashchange_event(
        &mut self,
        event_type: &str,
        new_url: &str,
        old_url: &str,
        bubbles: bool,
        cancelable: bool,
        is_trusted: bool,
        time_stamp: u64,
        target: usize,
    ) -> (h: usize)
        requires
            old(self).wf(),
            old(self).valid_node(target),
            !event_type@.contains('\0'),
            !new_url@.contains('\0'),
            !old_url@.contains('\0'),
        ensures
            final(self).wf(),
            final(self).context_id == old(self).context_id,
            final(self).nodes@ == old(self).nodes@,
            final(self).listeners@ == old(self).listeners@,
            final(self).events@.len() == old(self).events@.len() + 1,
            h == old(self).events@.len(),
            final(self).valid_event(h),
            forall|k: usize|
                old(self).valid_event(k) ==> #[trigger] final(self).event_at(k) == old(self).event_at(k),
            ({
                let e = final(self).event_at(h);
                e.event_type@ == event_type@ && e.new_url@ == new_url@ && e.old_url@ == old_url@
                    && e.bubbles == bubbles && e.cancelable == cancelable && !e.cancel_bubble
                    && !e.default_prevented && e.is_trusted == is_trusted && e.time_stamp
                    == time_stamp && e.target == target && e.current_target == target
            }),
    {
        let h = self.events.len();
        let rec = EventRecord {
            event_type: String::from_str(event_type),
            bubbles,
            cancelable,
            cancel_bubble: false,
            default_prevented: false,
            is_trusted,
            time_stamp,
            target,
            current_target: target,
            new_url: String::from_str(new_url),
            old_url: String::from_str(old_url),
        };
        self.events.push(rec);
        h
    }

    /// Mints a plain occurrence, with no navigation payload.
    pub fn create_event(
        &mut self,
        event_type: &str,
        bubbles: bool,
        cancelable: bool,
        is_trusted: bool,
        time_stamp: u64,
        target: usize,
    ) -> (h: usize)
        requires
            old(self).wf(),
            old(self).valid_node(target),
            !event_type@.contains('\0'),
        ensures
            final(self).wf(),
            final(self).context_id == old(self).context_id,
            final(self).nodes@ == old(self).nodes@,
            final(self).listeners@ == old(self).listeners@,
            final(self).events@.len() == old(self).events@.len() + 1,
            h == old(self).events@.len(),
            final(self).valid_event(h),
            forall|k: usize|
                old(self).valid_event(k) ==> #[trigger] final(self).event_at(k) == old(self).event_at(k),
            ({
                let e = final(self).event_at(h);
                e.event_type@ == event_type@ && e.new_url@ == Seq::<char>::empty() && e.old_url@
                    == Seq::<char>::empty() && e.bubbles == bubbles && e.cancelable == cancelable
                    && !e.cancel_bubble && !e.default_prevented && e.is_trusted == is_trusted
                    && e.time_stamp == time_stamp && e.target == target && e.current_target
                    == target
            }),
    {
        proof {
            reveal_strlit("");
            assert(!""@.contains('\0'));
        }
        let h = self.create_hashchange_event(
            event_type,
            "",
            "",
            bubbles,
            cancelable,
            is_trusted,
            time_stamp,
            target,
        );
        h
    }
}

/// Replaces one element of a vector, leaving the rest in place.
fn vec_replace<T>(v: &mut Vec<T>, i: usize, x: T)
    requires
        i < old(v).len(),
    ensures
        final(v)@ == old(v)@.update(i as int, x),
{
    v.remove(i);
    v.insert(i, x);
    proof {
        assert(v@ =~= old(v)@.update(i as int, x));
    }
}

/// A copy of a child list with every occurrence of `v` taken out.
fn remove_value_exec(s: &Vec<usize>, v: usize) -> (r: Vec<usize>)
    ensures
        r@ == remove_value(s@, v),
{
    let n = s.len();
    let mut r: Vec<usize> = Vec::new();
    let mut i: usize = 0;
    while i < n
        invariant
            n == s@.len(),
            0 <= i <= n,
            r@ == remove_value(s@.take(i as int), v),
        decreases n - i,
    {
        proof {
            assert(s@.take(i as int + 1) =~= s@.take(i as int).push(s@[i as int]));
            lemma_remove_value_push(s@.take(i as int), s@[i as int], v);
        }
        if s[i] != v {
            r.push(s[i]);
        }
        proof {
            assert(r@ =~= remove_value(s@.take(i as int + 1), v));
        }
        i = i + 1;
    }
    proof {
        assert(s@.take(n as int) =~= s@);
    }
    r
}

/// Whether a child list holds `v`.
fn contains_value(s: &Vec<usize>, v: usize) -> (r: bool)
    ensures
        r == s@.contains(v),
{
    let n = s.len();
    let mut i: usize = 0;
    while i < n
        invariant
            n == s@.len(),
            0 <= i <= n,
            forall|j: int| 0 <= j < i ==> s@[j] != v,
        decreases n - i,
    {
        if s[i] == v {
            proof {
                assert(s@.contains(v)) by {
                    assert(s@[i as int] == v);
                }
            }
            return true;
        }
        i = i + 1;
    }
    false
}

} // verus!
