use redux_store::bindings::Binding;
use redux_store::state::State;
use redux_store::store::Store;

fn listener(key: &str) -> Binding {
    Binding::Listen { key: key.to_string(), notified: 0, last: None }
}

fn listener_stats(b: &Binding) -> (u64, Option<i64>) {
    match b {
        Binding::Listen { notified, last, .. } => (*notified, *last),
        _ => panic!("expected a listening subscriber"),
    }
}

fn counting_store(initial: i64) -> Store<Binding> {
    let mut store = Store::new();
    let mut init = State::new();
    init.insert("count".to_string(), initial);
    store.set_state_and_reducer(init, Binding::AddToKey { key: "count".to_string() });
    store
}

fn count_of(store: &Store<Binding>) -> Option<i64> {
    store.state().get(&"count".to_string())
}

#[test]
fn plain_dispatch_adds_action_and_notifies() {
    let mut store = counting_store(0);
    store.subscribe(listener("count"));
    store.dispatch(5);
    assert_eq!(count_of(&store), Some(5));
    assert_eq!(listener_stats(store.subscriber_at(0)), (1, Some(5)));
}

#[test]
fn doubling_middleware_rewrites_the_action() {
    let mut store = counting_store(0);
    store.dispatch(5);
    assert_eq!(count_of(&store), Some(5));
    store.add_middleware(Binding::Double);
    store.dispatch(3);
    assert_eq!(count_of(&store), Some(11));
}

#[test]
fn negative_action_is_cancelled_entirely() {
    let mut store = counting_store(7);
    store.add_middleware(Binding::RejectNegative);
    store.subscribe(listener("count"));
    store.dispatch(-1);
    assert_eq!(count_of(&store), Some(7));
    assert_eq!(listener_stats(store.subscriber_at(0)), (0, None));
    store.dispatch(2);
    assert_eq!(count_of(&store), Some(9));
    assert_eq!(listener_stats(store.subscriber_at(0)), (1, Some(9)));
}

#[test]
fn reducer_only_dispatches_compose() {
    let mut store = counting_store(0);
    store.dispatch(1);
    store.dispatch(2);
    store.dispatch(3);
    store.dispatch(4);
    assert_eq!(count_of(&store), Some(10));
}

#[test]
fn pass_through_middleware_changes_nothing() {
    let mut doubled = counting_store(0);
    doubled.add_middleware(Binding::Double);
    doubled.dispatch(3);

    let mut pass_first = counting_store(0);
    pass_first.add_middleware(Binding::PassThrough);
    pass_first.add_middleware(Binding::Double);
    pass_first.dispatch(3);

    let mut pass_last = counting_store(0);
    pass_last.add_middleware(Binding::Double);
    pass_last.add_middleware(Binding::PassThrough);
    pass_last.dispatch(3);

    assert_eq!(count_of(&doubled), Some(6));
    assert_eq!(count_of(&pass_first), Some(6));
    assert_eq!(count_of(&pass_last), Some(6));
}

#[test]
fn cancellation_skips_reducer_and_subscribers() {
    let mut store = counting_store(4);
    store.add_middleware(Binding::Double);
    store.add_middleware(Binding::Opaque);
    store.subscribe(listener("count"));
    store.dispatch(3);
    assert_eq!(count_of(&store), Some(4));
    assert_eq!(listener_stats(store.subscriber_at(0)), (0, None));
}

#[test]
fn every_subscriber_is_notified_once_with_the_new_state() {
    let mut store = counting_store(0);
    store.subscribe(listener("count"));
    store.subscribe(listener("count"));
    store.subscribe(listener("count"));
    store.dispatch(2);
    assert_eq!(store.subscriber_count(), 3);
    for i in 0..3 {
        assert_eq!(listener_stats(store.subscriber_at(i)), (1, Some(2)));
    }
}

#[test]
fn reconfiguration_clears_both_pipelines() {
    let mut store = counting_store(0);
    store.add_middleware(Binding::Double);
    store.add_middleware(Binding::RejectNegative);
    store.subscribe(listener("count"));
    store.subscribe(listener("count"));
    assert_eq!(store.middleware_count(), 2);
    assert_eq!(store.subscriber_count(), 2);

    let mut init = State::new();
    init.insert("count".to_string(), 0);
    store.set_state_and_reducer(init, Binding::AddToKey { key: "count".to_string() });
    assert_eq!(store.middleware_count(), 0);
    assert_eq!(store.subscriber_count(), 0);
    store.dispatch(3);
    assert_eq!(count_of(&store), Some(3));
}

#[test]
fn malformed_reducer_result_falls_back_to_the_empty_state() {
    let mut store = Store::new();
    let mut init = State::new();
    init.insert("count".to_string(), 9);
    store.set_state_and_reducer(init, Binding::Opaque);
    store.subscribe(listener("count"));
    store.dispatch(1);
    assert!(store.state().is_empty());
    assert_eq!(listener_stats(store.subscriber_at(0)), (1, None));
}

#[test]
fn dispatch_before_configuration_is_a_noop() {
    let mut store: Store<Binding> = Store::new();
    store.subscribe(listener("count"));
    store.dispatch(5);
    assert!(store.state().is_empty());
    assert_eq!(listener_stats(store.subscriber_at(0)), (0, None));
}

#[test]
fn reducer_addition_wraps_on_overflow() {
    let mut store = counting_store(i64::MAX);
    store.dispatch(1);
    assert_eq!(count_of(&store), Some(i64::MIN));
}

#[test]
fn each_stage_sees_the_rewritten_action() {
    let mut store = counting_store(0);
    store.add_middleware(Binding::Double);
    store.add_middleware(Binding::Double);
    store.dispatch(3);
    assert_eq!(count_of(&store), Some(12));
}

#[test]
fn state_getter_returns_an_independent_copy() {
    let mut store = counting_store(1);
    let mut snapshot = store.state();
    snapshot.insert("count".to_string(), 99);
    assert_eq!(count_of(&store), Some(1));
    assert_eq!(snapshot.get(&"count".to_string()), Some(99));
}
