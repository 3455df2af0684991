use redux_store::engine::{begin, next, reducer_accepts, HostReply, HostStep};

#[test]
fn no_reducer_means_nothing_is_invoked() {
    assert_eq!(begin(3, false, 5), HostStep::Idle);
}

#[test]
fn an_empty_chain_goes_straight_to_the_reducer() {
    assert_eq!(begin(0, true, 5), HostStep::RunReducer { action: 5 });
}

#[test]
fn a_full_dispatch_walks_chain_reducer_and_subscribers_in_order() {
    let mid_count = 2;
    let sub_count = 2;
    let s0 = begin(mid_count, true, 7);
    assert_eq!(s0, HostStep::RunMiddleware { index: 0, action: 7 });
    let s1 = next(mid_count, sub_count, s0, HostReply::Int(3));
    assert_eq!(s1, HostStep::RunMiddleware { index: 1, action: 3 });
    let s2 = next(mid_count, sub_count, s1, HostReply::Int(4));
    assert_eq!(s2, HostStep::RunReducer { action: 4 });
    let s3 = next(mid_count, sub_count, s2, HostReply::StateValue);
    assert_eq!(s3, HostStep::RunSubscriber { index: 0 });
    let s4 = next(mid_count, sub_count, s3, HostReply::Unrecognized);
    assert_eq!(s4, HostStep::RunSubscriber { index: 1 });
    let s5 = next(mid_count, sub_count, s4, HostReply::Unrecognized);
    assert_eq!(s5, HostStep::Idle);
}

#[test]
fn an_unparseable_middleware_reply_cancels_the_dispatch() {
    let s0 = begin(1, true, 7);
    assert_eq!(s0, HostStep::RunMiddleware { index: 0, action: 7 });
    assert_eq!(next(1, 5, s0, HostReply::Unrecognized), HostStep::Idle);
    assert_eq!(next(1, 5, s0, HostReply::StateValue), HostStep::Idle);
}

#[test]
fn subscribers_follow_the_reducer_whatever_it_replied() {
    let reduce = HostStep::RunReducer { action: 4 };
    assert_eq!(next(0, 1, reduce, HostReply::StateValue), HostStep::RunSubscriber { index: 0 });
    assert_eq!(next(0, 1, reduce, HostReply::Unrecognized), HostStep::RunSubscriber { index: 0 });
    assert_eq!(next(0, 0, reduce, HostReply::StateValue), HostStep::Idle);
}

#[test]
fn only_a_state_value_is_accepted_as_the_new_state() {
    assert!(reducer_accepts(&HostReply::StateValue));
    assert!(!reducer_accepts(&HostReply::Int(3)));
    assert!(!reducer_accepts(&HostReply::Unrecognized));
}

#[test]
fn a_finished_dispatch_stays_finished() {
    assert_eq!(next(2, 2, HostStep::Idle, HostReply::Int(1)), HostStep::Idle);
}
