use webf_sys::container_node::ContainerNode;
use webf_sys::engine::NativeEngine;
use webf_sys::event::Event;
use webf_sys::event::EventMethods;
use webf_sys::event_target::AddEventListenerOptions;
use webf_sys::event_target::EventListenerCallback;
use webf_sys::event_target::EventTarget;
use webf_sys::event_target::EventTargetMethods;
use webf_sys::exception_state::ExceptionState;
use webf_sys::hashchange_event::HashchangeEvent;
use webf_sys::hashchange_event::HashchangeEventMethods;
use webf_sys::node::Node;
use webf_sys::node::NodeMethods;
use webf_sys::OpaquePtr;
use webf_sys::RustValueStatus;

fn options() -> AddEventListenerOptions {
    AddEventListenerOptions { capture: false, once: false, passive: false }
}

fn status() -> RustValueStatus {
    RustValueStatus { disposed: false }
}

#[test]
fn initialize_preserves_node_handle_identity() {
    let mut engine = NativeEngine::new(7);
    let h = engine.create_node();
    let table = engine.node_rust_methods();
    let node = Node::initialize(OpaquePtr { addr: h }, engine.context(), &table);
    assert_eq!(node.ptr().addr, h);
    assert_eq!(node.context().id, 7);
}

#[test]
fn initialize_preserves_container_node_handle_identity() {
    let mut engine = NativeEngine::new(3);
    let h = engine.create_node();
    let table = engine.container_node_rust_methods();
    let container = ContainerNode::initialize(OpaquePtr { addr: h }, engine.context(), &table);
    assert_eq!(container.ptr().addr, h);
    assert_eq!(container.context().id, 3);
}

#[test]
fn initialize_preserves_hashchange_event_handle_identity() {
    let mut engine = NativeEngine::new(1);
    let t = engine.create_node();
    let ev = engine.create_hashchange_event("hashchange", "https://x/#a", "https://x/#b", false, false, true, 10, t);
    let table = engine.hashchange_event_rust_methods();
    let wrapper = HashchangeEvent::initialize(OpaquePtr { addr: ev }, engine.context(), &table, &status());
    assert_eq!(wrapper.ptr().addr, ev);
    assert_eq!(wrapper.context().id, 1);
}

#[test]
fn append_child_appends_as_last_child() {
    let mut engine = NativeEngine::new(1);
    let p = engine.create_node();
    let c1 = engine.create_node();
    let c2 = engine.create_node();
    let table = engine.node_rust_methods();
    let ctx = engine.context();
    let parent = Node::initialize(OpaquePtr { addr: p }, ctx, &table);
    let child1 = Node::initialize(OpaquePtr { addr: c1 }, ctx, &table);
    let child2 = Node::initialize(OpaquePtr { addr: c2 }, ctx, &table);

    let mut exc = ExceptionState::new();
    let r1 = parent.append_child(&mut engine, &child1, &mut exc).unwrap();
    assert_eq!(r1.ptr().addr, c1);
    let mut exc = ExceptionState::new();
    let r2 = parent.append_child(&mut engine, &child2, &mut exc).unwrap();
    assert_eq!(r2.ptr().addr, c2);

    assert_eq!(engine.nodes[p].children, vec![c1, c2]);
}

#[test]
fn append_child_moves_an_existing_child_to_the_end() {
    let mut engine = NativeEngine::new(1);
    let p = engine.create_node();
    let c1 = engine.create_node();
    let c2 = engine.create_node();
    let table = engine.node_rust_methods();
    let ctx = engine.context();
    let parent = Node::initialize(OpaquePtr { addr: p }, ctx, &table);
    let child1 = Node::initialize(OpaquePtr { addr: c1 }, ctx, &table);
    let child2 = Node::initialize(OpaquePtr { addr: c2 }, ctx, &table);

    let mut exc = ExceptionState::new();
    parent.append_child(&mut engine, &child1, &mut exc).unwrap();
    let mut exc = ExceptionState::new();
    parent.append_child(&mut engine, &child2, &mut exc).unwrap();
    let mut exc = ExceptionState::new();
    parent.append_child(&mut engine, &child1, &mut exc).unwrap();

    assert_eq!(engine.nodes[p].children, vec![c2, c1]);
}

#[test]
fn append_child_into_itself_fails() {
    let mut engine = NativeEngine::new(1);
    let p = engine.create_node();
    let table = engine.node_rust_methods();
    let node = Node::initialize(OpaquePtr { addr: p }, engine.context(), &table);

    let mut exc = ExceptionState::new();
    let r = node.append_child(&mut engine, &node, &mut exc);
    assert_eq!(
        r.unwrap_err(),
        "HierarchyRequestError: a node cannot be inserted into itself".to_string()
    );
    assert!(exc.has_exception());
    assert!(engine.nodes[p].children.is_empty());
}

#[test]
fn remove_child_of_a_non_child_fails_and_leaves_the_tree_unchanged() {
    let mut engine = NativeEngine::new(1);
    let p = engine.create_node();
    let c1 = engine.create_node();
    let stranger = engine.create_node();
    let table = engine.node_rust_methods();
    let ctx = engine.context();
    let parent = Node::initialize(OpaquePtr { addr: p }, ctx, &table);
    let child1 = Node::initialize(OpaquePtr { addr: c1 }, ctx, &table);
    let other = Node::initialize(OpaquePtr { addr: stranger }, ctx, &table);

    let mut exc = ExceptionState::new();
    parent.append_child(&mut engine, &child1, &mut exc).unwrap();

    let mut exc = ExceptionState::new();
    let r = parent.remove_child(&mut engine, &other, &mut exc);
    assert_eq!(
        r.unwrap_err(),
        "NotFoundError: the node to be removed is not a child of this node".to_string()
    );
    assert!(exc.has_exception());
    assert_eq!(engine.nodes[p].children, vec![c1]);
}

#[test]
fn remove_child_detaches_without_destroying() {
    let mut engine = NativeEngine::new(1);
    let p = engine.create_node();
    let c1 = engine.create_node();
    let table = engine.node_rust_methods();
    let ctx = engine.context();
    let parent = Node::initialize(OpaquePtr { addr: p }, ctx, &table);
    let child1 = Node::initialize(OpaquePtr { addr: c1 }, ctx, &table);

    let mut exc = ExceptionState::new();
    parent.append_child(&mut engine, &child1, &mut exc).unwrap();
    let mut exc = ExceptionState::new();
    let removed = parent.remove_child(&mut engine, &child1, &mut exc).unwrap();
    assert_eq!(removed.ptr().addr, c1);
    assert!(engine.nodes[p].children.is_empty());
    // The detached node is still a live handle.
    let mut exc = ExceptionState::new();
    parent.append_child(&mut engine, &child1, &mut exc).unwrap();
    assert_eq!(engine.nodes[p].children, vec![c1]);
}

#[test]
fn container_node_delegates_tree_operations() {
    let mut engine = NativeEngine::new(1);
    let p = engine.create_node();
    let c1 = engine.create_node();
    let ctx = engine.context();
    let container =
        ContainerNode::initialize(OpaquePtr { addr: p }, ctx, &engine.container_node_rust_methods());
    let child1 = Node::initialize(OpaquePtr { addr: c1 }, ctx, &engine.node_rust_methods());

    assert_eq!(container.as_node().ptr().addr, p);

    let mut exc = ExceptionState::new();
    let r = container.append_child(&mut engine, &child1, &mut exc).unwrap();
    assert_eq!(r.ptr().addr, c1);
    assert_eq!(engine.nodes[p].children, vec![c1]);

    let mut exc = ExceptionState::new();
    container.remove_child(&mut engine, &child1, &mut exc).unwrap();
    assert!(engine.nodes[p].children.is_empty());
}

#[test]
fn type_accessor_is_idempotent() {
    let mut engine = NativeEngine::new(1);
    let t = engine.create_node();
    let ev = engine.create_hashchange_event("hashchange", "https://x/#a", "https://x/#b", false, false, true, 5, t);
    let wrapper = HashchangeEvent::initialize(
        OpaquePtr { addr: ev },
        engine.context(),
        &engine.hashchange_event_rust_methods(),
        &status(),
    );
    let first = wrapper.type_(&engine);
    let second = wrapper.type_(&engine);
    assert_eq!(first, second);
    assert_eq!(first, "hashchange".to_string());
}

#[test]
fn listener_is_invoked_once_per_matching_dispatch() {
    let mut engine = NativeEngine::new(1);
    let h = engine.create_node();
    let target =
        EventTarget::initialize(OpaquePtr { addr: h }, engine.context(), &engine.event_target_rust_methods());
    let cb = EventListenerCallback { trampoline: 0x1000, state: 21 };

    let mut exc = ExceptionState::new();
    target.add_event_listener(&mut engine, "hashchange", cb, &options(), &mut exc).unwrap();

    let ev = engine.create_hashchange_event("hashchange", "https://x/#a", "https://x/#b", false, false, true, 5, h);
    let fired = engine.dispatch_event(h, ev);
    assert_eq!(fired, vec![cb]);

    let other = engine.create_event("click", true, true, true, 6, h);
    let fired = engine.dispatch_event(h, other);
    assert!(fired.is_empty());
}

#[test]
fn removed_listener_is_not_invoked_again() {
    let mut engine = NativeEngine::new(1);
    let h = engine.create_node();
    let target =
        EventTarget::initialize(OpaquePtr { addr: h }, engine.context(), &engine.event_target_rust_methods());
    let cb = EventListenerCallback { trampoline: 0x1000, state: 22 };

    let mut exc = ExceptionState::new();
    target.add_event_listener(&mut engine, "hashchange", cb, &options(), &mut exc).unwrap();
    let ev = engine.create_hashchange_event("hashchange", "https://x/#a", "https://x/#b", false, false, true, 5, h);
    let fired = engine.dispatch_event(h, ev);
    assert_eq!(fired.len(), 1);

    let mut exc = ExceptionState::new();
    target.remove_event_listener(&mut engine, "hashchange", cb, &mut exc).unwrap();
    let fired = engine.dispatch_event(h, ev);
    assert!(fired.is_empty());
}

#[test]
fn removing_a_listener_that_was_never_added_is_a_no_op_success() {
    let mut engine = NativeEngine::new(1);
    let h = engine.create_node();
    let target =
        EventTarget::initialize(OpaquePtr { addr: h }, engine.context(), &engine.event_target_rust_methods());
    let cb = EventListenerCallback { trampoline: 0x1000, state: 23 };

    let mut exc = ExceptionState::new();
    let r = target.remove_event_listener(&mut engine, "hashchange", cb, &mut exc);
    assert!(r.is_ok());
    assert!(!exc.has_exception());
    assert!(engine.listeners.is_empty());
}

#[test]
fn once_listener_fires_a_single_time() {
    let mut engine = NativeEngine::new(1);
    let h = engine.create_node();
    let target =
        EventTarget::initialize(OpaquePtr { addr: h }, engine.context(), &engine.event_target_rust_methods());
    let cb = EventListenerCallback { trampoline: 0x1000, state: 24 };
    let once = AddEventListenerOptions { capture: false, once: true, passive: false };

    let mut exc = ExceptionState::new();
    target.add_event_listener(&mut engine, "hashchange", cb, &once, &mut exc).unwrap();
    let ev = engine.create_hashchange_event("hashchange", "https://x/#a", "https://x/#b", false, false, true, 5, h);
    let fired = engine.dispatch_event(h, ev);
    assert_eq!(fired, vec![cb]);
    let fired = engine.dispatch_event(h, ev);
    assert!(fired.is_empty());
}

#[test]
fn hashchange_scenario_listener_observes_the_urls() {
    let mut engine = NativeEngine::new(1);
    let h = engine.create_node();
    let target =
        EventTarget::initialize(OpaquePtr { addr: h }, engine.context(), &engine.event_target_rust_methods());
    let cb = EventListenerCallback { trampoline: 0x2000, state: 9 };

    let mut exc = ExceptionState::new();
    target.add_event_listener(&mut engine, "hashchange", cb, &options(), &mut exc).unwrap();

    let ev = engine.create_hashchange_event("hashchange", "https://x/#a", "https://x/#b", false, false, true, 5, h);
    let fired = engine.dispatch_event(h, ev);
    assert_eq!(fired, vec![cb]);

    // What the invoked listener observes through its event handle.
    let observed = HashchangeEvent::initialize(
        OpaquePtr { addr: ev },
        engine.context(),
        &engine.hashchange_event_rust_methods(),
        &status(),
    );
    assert_eq!(observed.type_(&engine), "hashchange".to_string());
    assert_eq!(
        observed.as_hashchange_event().new_url(&engine),
        "https://x/#a".to_string()
    );
    assert_eq!(observed.old_url(&engine), "https://x/#b".to_string());
}

#[test]
fn prevent_default_on_a_non_cancelable_event_succeeds_and_changes_nothing() {
    let mut engine = NativeEngine::new(1);
    let t = engine.create_node();
    let ev = engine.create_event("submit", true, false, true, 5, t);
    let wrapper =
        Event::initialize(OpaquePtr { addr: ev }, engine.context(), &engine.event_rust_methods(), &status());

    let mut exc = ExceptionState::new();
    let r = wrapper.prevent_default(&mut engine, &mut exc);
    assert!(r.is_ok());
    assert!(!exc.has_exception());
    assert!(!wrapper.default_prevented(&engine));
}

#[test]
fn prevent_default_on_a_cancelable_event_latches() {
    let mut engine = NativeEngine::new(1);
    let t = engine.create_node();
    let ev = engine.create_event("submit", true, true, true, 5, t);
    let wrapper =
        Event::initialize(OpaquePtr { addr: ev }, engine.context(), &engine.event_rust_methods(), &status());

    assert!(!wrapper.default_prevented(&engine));
    let mut exc = ExceptionState::new();
    wrapper.prevent_default(&mut engine, &mut exc).unwrap();
    assert!(wrapper.default_prevented(&engine));
}

#[test]
fn set_cancel_bubble_latches() {
    let mut engine = NativeEngine::new(1);
    let t = engine.create_node();
    let ev = engine.create_event("scroll", true, false, true, 5, t);
    let wrapper =
        Event::initialize(OpaquePtr { addr: ev }, engine.context(), &engine.event_rust_methods(), &status());

    assert!(!wrapper.cancel_bubble(&engine));
    let mut exc = ExceptionState::new();
    wrapper.set_cancel_bubble(&mut engine, true, &mut exc).unwrap();
    assert!(wrapper.cancel_bubble(&engine));
    let mut exc = ExceptionState::new();
    wrapper.set_cancel_bubble(&mut engine, false, &mut exc).unwrap();
    assert!(wrapper.cancel_bubble(&engine));
}

#[test]
fn stop_propagation_stops_bubbling() {
    let mut engine = NativeEngine::new(1);
    let t = engine.create_node();
    let ev = engine.create_event("scroll", true, false, true, 5, t);
    let wrapper =
        Event::initialize(OpaquePtr { addr: ev }, engine.context(), &engine.event_rust_methods(), &status());

    let mut exc = ExceptionState::new();
    wrapper.stop_propagation(&mut engine, &mut exc).unwrap();
    assert!(wrapper.cancel_bubble(&engine));
    assert!(!wrapper.default_prevented(&engine));

    let mut exc = ExceptionState::new();
    wrapper.stop_immediate_propagation(&mut engine, &mut exc).unwrap();
    assert!(wrapper.cancel_bubble(&engine));
}

#[test]
fn init_event_resets_name_and_policy() {
    let mut engine = NativeEngine::new(1);
    let t = engine.create_node();
    let ev = engine.create_event("draft", false, false, true, 5, t);
    let wrapper =
        Event::initialize(OpaquePtr { addr: ev }, engine.context(), &engine.event_rust_methods(), &status());

    let mut exc = ExceptionState::new();
    wrapper.init_event(&mut engine, "custom", true, true, &mut exc).unwrap();
    assert_eq!(wrapper.type_(&engine), "custom".to_string());
    assert!(wrapper.bubbles(&engine));
    assert!(wrapper.cancelable(&engine));
    assert!(wrapper.is_trusted(&engine));
    assert_eq!(wrapper.time_stamp(&engine), 5);
}

#[test]
fn event_accessors_read_the_native_state() {
    let mut engine = NativeEngine::new(4);
    let t = engine.create_node();
    let ev = engine.create_hashchange_event("hashchange", "https://x/#a", "https://x/#b", true, false, false, 99, t);
    let wrapper = HashchangeEvent::initialize(
        OpaquePtr { addr: ev },
        engine.context(),
        &engine.hashchange_event_rust_methods(),
        &status(),
    );

    assert!(wrapper.bubbles(&engine));
    assert!(!wrapper.cancelable(&engine));
    assert!(!wrapper.is_trusted(&engine));
    assert!(!wrapper.default_prevented(&engine));
    assert!(!wrapper.cancel_bubble(&engine));
    assert_eq!(wrapper.time_stamp(&engine), 99);
    assert_eq!(wrapper.target(&engine).ptr().addr, t);
    assert_eq!(wrapper.src_element(&engine).ptr().addr, t);
    assert_eq!(wrapper.current_target(&engine).ptr().addr, t);
    assert_eq!(wrapper.as_event().ptr().addr, ev);
}
