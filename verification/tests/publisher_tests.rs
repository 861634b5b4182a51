use segment_ingress::delivery::deliver;
use segment_ingress::metastore::{ConflictKind, MemoryMetastore};
use segment_ingress::publisher::{
    classify, Action, ErrorKind, Event, ObservableState, PublishOutcome, Publisher, RejectReason,
    Verdict,
};
use segment_ingress::retry::RetryPolicy;
use segment_ingress::split::{PublishRequest, TimeRange, UploadedSplit};

fn policy(max_attempts: u32) -> RetryPolicy {
    RetryPolicy { max_attempts, initial_backoff_ms: 100, max_backoff_ms: 1000 }
}

fn publisher_for(indexes: &[&str], max_attempts: u32) -> Publisher {
    Publisher::new(indexes.iter().map(|s| s.to_string()).collect(), policy(max_attempts))
}

fn split(index: &str, segment: &str, checkpoint: u64) -> UploadedSplit {
    UploadedSplit {
        segment_id: segment.to_string(),
        index_id: index.to_string(),
        time_range: Some(TimeRange { start: 10, end: 20 }),
        size_bytes: 4096,
        checkpoint,
    }
}

fn request(index: &str, segment: &str, checkpoint: u64) -> PublishRequest {
    PublishRequest {
        index_id: index.to_string(),
        segment_id: segment.to_string(),
        time_range: Some(TimeRange { start: 10, end: 20 }),
        checkpoint,
    }
}

fn metastore_with(indexes: &[&str]) -> MemoryMetastore {
    let mut metastore = MemoryMetastore::new();
    for index in indexes {
        assert!(metastore.create_index(index));
    }
    metastore
}

fn fresh() -> ObservableState {
    ObservableState { last_published_segment_id: None, published_count: 0, last_error_kind: None }
}

fn ids(names: &[&str]) -> Option<Vec<String>> {
    Some(names.iter().map(|s| s.to_string()).collect())
}

#[test]
fn a_committed_split_is_counted() {
    let mut publisher = publisher_for(&["I"], 3);
    let mut metastore = metastore_with(&["I"]);
    assert_eq!(deliver(&mut publisher, &mut metastore, split("I", "S1", 5)), Action::Acknowledge);
    let state = publisher.observable_state();
    assert_eq!(state.published_count, 1);
    assert_eq!(state.last_published_segment_id, Some("S1".to_string()));
    assert_eq!(state.last_error_kind, None);
    assert_eq!(metastore.segment_ids("I"), ids(&["S1"]));
    assert_eq!(metastore.checkpoint("I"), Some(5));
    assert!(publisher.is_idle());
}

#[test]
fn a_committed_split_is_counted_step_by_step() {
    let mut publisher = publisher_for(&["I"], 3);
    assert_eq!(
        publisher.handle(Event::Message(split("I", "S1", 5))),
        Action::Publish(request("I", "S1", 5))
    );
    assert!(!publisher.is_idle());
    assert_eq!(publisher.observable_state(), fresh());
    assert_eq!(publisher.handle(Event::Reply(PublishOutcome::Committed)), Action::Acknowledge);
    assert_eq!(
        publisher.observable_state(),
        ObservableState {
            last_published_segment_id: Some("S1".to_string()),
            published_count: 1,
            last_error_kind: None,
        }
    );
    assert!(publisher.is_idle());
}

#[test]
fn the_same_split_twice_is_one_segment_and_two_acknowledgements() {
    let mut publisher = publisher_for(&["I"], 3);
    let mut metastore = metastore_with(&["I"]);
    assert_eq!(deliver(&mut publisher, &mut metastore, split("I", "S1", 5)), Action::Acknowledge);
    assert_eq!(deliver(&mut publisher, &mut metastore, split("I", "S1", 5)), Action::Acknowledge);
    assert_eq!(publisher.observable_state().published_count, 2);
    assert_eq!(publisher.observable_state().last_published_segment_id, Some("S1".to_string()));
    assert_eq!(publisher.observable_state().last_error_kind, None);
    assert_eq!(metastore.segment_ids("I"), ids(&["S1"]));
    assert_eq!(metastore.call_count(), 2);
}

#[test]
fn an_already_published_answer_is_a_success() {
    let mut publisher = publisher_for(&["I"], 3);
    publisher.process_message(split("I", "S1", 5));
    assert_eq!(publisher.handle_reply(PublishOutcome::Committed), Action::Acknowledge);
    publisher.process_message(split("I", "S1", 5));
    assert_eq!(
        publisher.handle_reply(PublishOutcome::Conflict(ConflictKind::AlreadyPublished)),
        Action::Acknowledge
    );
    assert_eq!(publisher.observable_state().published_count, 2);
    assert_eq!(publisher.observable_state().last_error_kind, None);
}

#[test]
fn a_stale_checkpoint_is_recorded_and_not_retried() {
    let mut publisher = publisher_for(&["I"], 3);
    let mut metastore = metastore_with(&["I"]);
    assert_eq!(deliver(&mut publisher, &mut metastore, split("I", "S1", 5)), Action::Acknowledge);
    assert_eq!(
        deliver(&mut publisher, &mut metastore, split("I", "S2", 3)),
        Action::Discard(ErrorKind::StaleCheckpoint)
    );
    let state = publisher.observable_state();
    assert_eq!(state.last_error_kind, Some(ErrorKind::StaleCheckpoint));
    assert_eq!(state.published_count, 1);
    assert_eq!(state.last_published_segment_id, Some("S1".to_string()));
    assert_eq!(metastore.call_count(), 2);
    assert_eq!(metastore.segment_ids("I"), ids(&["S1"]));
    assert_eq!(metastore.checkpoint("I"), Some(5));
    assert!(publisher.is_idle());
}

#[test]
fn an_index_unknown_to_the_metastore_is_recorded_and_not_retried() {
    let mut publisher = publisher_for(&["I", "J"], 3);
    let mut metastore = metastore_with(&["I"]);
    assert_eq!(
        deliver(&mut publisher, &mut metastore, split("J", "S1", 5)),
        Action::Discard(ErrorKind::UnknownIndex)
    );
    assert_eq!(publisher.observable_state().last_error_kind, Some(ErrorKind::UnknownIndex));
    assert_eq!(publisher.observable_state().published_count, 0);
    assert_eq!(metastore.call_count(), 1);
    assert_eq!(metastore.segment_ids("J"), None);
}

#[test]
fn transient_faults_below_the_bound_are_outlasted() {
    for max in 1u32..6 {
        for faults in 0..max {
            let mut publisher = publisher_for(&["I"], max);
            let mut metastore = metastore_with(&["I"]);
            metastore.fail_next(faults as u64);
            assert_eq!(
                deliver(&mut publisher, &mut metastore, split("I", "S1", 5)),
                Action::Acknowledge,
                "{} faults under a bound of {}",
                faults,
                max
            );
            assert_eq!(publisher.observable_state().published_count, 1);
            assert_eq!(publisher.observable_state().last_error_kind, None);
            assert_eq!(metastore.segment_ids("I"), ids(&["S1"]));
            assert_eq!(metastore.call_count(), faults as usize + 1);
            assert_eq!(metastore.pending_faults(), 0);
        }
    }
}

#[test]
fn transient_faults_up_to_the_bound_give_the_message_up() {
    for max in 0u32..5 {
        let mut publisher = publisher_for(&["I"], max);
        let mut metastore = metastore_with(&["I"]);
        metastore.fail_next(100);
        assert_eq!(
            deliver(&mut publisher, &mut metastore, split("I", "S1", 5)),
            Action::Discard(ErrorKind::Transient)
        );
        assert_eq!(publisher.observable_state().last_error_kind, Some(ErrorKind::Transient));
        assert_eq!(publisher.observable_state().published_count, 0);
        assert_eq!(publisher.observable_state().last_published_segment_id, None);
        assert_eq!(metastore.segment_ids("I"), ids(&[]));
        let calls = if max == 0 { 1 } else { max as usize };
        assert_eq!(metastore.call_count(), calls);
        assert!(publisher.is_idle());
    }
}

#[test]
fn the_publisher_goes_on_after_a_failed_message() {
    let mut publisher = publisher_for(&["I"], 2);
    let mut metastore = metastore_with(&["I"]);
    metastore.fail_next(2);
    assert_eq!(
        deliver(&mut publisher, &mut metastore, split("I", "S1", 5)),
        Action::Discard(ErrorKind::Transient)
    );
    assert_eq!(deliver(&mut publisher, &mut metastore, split("I", "S2", 6)), Action::Acknowledge);
    let state = publisher.observable_state();
    assert_eq!(state.published_count, 1);
    assert_eq!(state.last_published_segment_id, Some("S2".to_string()));
    assert_eq!(state.last_error_kind, Some(ErrorKind::Transient));
}

#[test]
fn retries_wait_longer_each_time() {
    let mut publisher = publisher_for(&["I"], 6);
    assert_eq!(
        publisher.process_message(split("I", "S1", 5)),
        Action::Publish(request("I", "S1", 5))
    );
    let waits = [100u64, 200, 400, 800, 1000];
    for wait in waits {
        assert_eq!(
            publisher.handle_reply(PublishOutcome::Conflict(ConflictKind::Transient)),
            Action::Wait(wait)
        );
        assert_eq!(publisher.handle_wakeup(), Action::Publish(request("I", "S1", 5)));
    }
    assert_eq!(
        publisher.handle_reply(PublishOutcome::Conflict(ConflictKind::Transient)),
        Action::Wait(1000)
    );
    assert_eq!(publisher.handle_wakeup(), Action::Discard(ErrorKind::Transient));
    assert!(publisher.is_idle());
    assert_eq!(publisher.observable_state().last_error_kind, Some(ErrorKind::Transient));
}

#[test]
fn an_unexpected_failure_is_retried_as_a_transient_one() {
    let mut publisher = publisher_for(&["I"], 3);
    publisher.process_message(split("I", "S1", 5));
    assert_eq!(publisher.handle_reply(PublishOutcome::Unexpected), Action::Wait(100));
    assert_eq!(publisher.handle_wakeup(), Action::Publish(request("I", "S1", 5)));
    assert_eq!(publisher.handle_reply(PublishOutcome::Committed), Action::Acknowledge);
    assert_eq!(publisher.observable_state().published_count, 1);
    assert_eq!(publisher.observable_state().last_error_kind, None);
}

#[test]
fn backoff_doubles_up_to_its_cap() {
    let p = RetryPolicy { max_attempts: 9, initial_backoff_ms: 100, max_backoff_ms: 1000 };
    assert_eq!(p.backoff_ms(0), 100);
    assert_eq!(p.backoff_ms(1), 100);
    assert_eq!(p.backoff_ms(2), 200);
    assert_eq!(p.backoff_ms(3), 400);
    assert_eq!(p.backoff_ms(4), 800);
    assert_eq!(p.backoff_ms(5), 1000);
    assert_eq!(p.backoff_ms(6), 1000);
    assert_eq!(p.backoff_ms(64), 1000);
    assert_eq!(p.backoff_ms(65), 1000);
    assert_eq!(p.backoff_ms(u32::MAX), 1000);
}

#[test]
fn backoff_at_the_edges() {
    let none = RetryPolicy { max_attempts: 3, initial_backoff_ms: 0, max_backoff_ms: 1000 };
    assert_eq!(none.backoff_ms(1), 0);
    assert_eq!(none.backoff_ms(1000), 0);
    assert_eq!(none.backoff_ms(u32::MAX), 0);
    let capped = RetryPolicy { max_attempts: 3, initial_backoff_ms: 5000, max_backoff_ms: 1000 };
    assert_eq!(capped.backoff_ms(1), 1000);
    assert_eq!(capped.backoff_ms(2), 1000);
    let zero_cap = RetryPolicy { max_attempts: 3, initial_backoff_ms: 5, max_backoff_ms: 0 };
    assert_eq!(zero_cap.backoff_ms(1), 0);
    assert_eq!(zero_cap.backoff_ms(7), 0);
    let wide = RetryPolicy { max_attempts: 3, initial_backoff_ms: 1, max_backoff_ms: u64::MAX };
    assert_eq!(wide.backoff_ms(1), 1);
    assert_eq!(wide.backoff_ms(11), 1024);
    assert_eq!(wide.backoff_ms(64), 1u64 << 63);
    assert_eq!(wide.backoff_ms(65), u64::MAX);
    assert_eq!(wide.backoff_ms(66), u64::MAX);
    let odd = RetryPolicy { max_attempts: 3, initial_backoff_ms: 3, max_backoff_ms: 20 };
    assert_eq!(odd.backoff_ms(1), 3);
    assert_eq!(odd.backoff_ms(2), 6);
    assert_eq!(odd.backoff_ms(3), 12);
    assert_eq!(odd.backoff_ms(4), 20);
    let huge = RetryPolicy {
        max_attempts: 3,
        initial_backoff_ms: u64::MAX / 2 + 1,
        max_backoff_ms: u64::MAX,
    };
    assert_eq!(huge.backoff_ms(1), u64::MAX / 2 + 1);
    assert_eq!(huge.backoff_ms(2), u64::MAX);
}

#[test]
fn a_split_without_a_segment_identifier_is_handed_back() {
    let mut publisher = publisher_for(&["I"], 3);
    let message = split("I", "", 5);
    assert!(!publisher.is_valid(&message));
    assert_eq!(
        publisher.process_message(split("I", "", 5)),
        Action::Reject(RejectReason::Invalid, message)
    );
    assert!(publisher.is_idle());
    assert_eq!(publisher.observable_state(), fresh());
}

#[test]
fn a_split_of_an_index_that_is_not_served_is_handed_back() {
    let mut publisher = publisher_for(&["I", "K"], 3);
    let mut metastore = metastore_with(&["I", "J"]);
    assert!(publisher.serves("I"));
    assert!(publisher.serves("K"));
    assert!(!publisher.serves("J"));
    assert!(!publisher.serves(""));
    assert!(!publisher.serves("i"));
    assert_eq!(
        deliver(&mut publisher, &mut metastore, split("J", "S1", 5)),
        Action::Reject(RejectReason::Invalid, split("J", "S1", 5))
    );
    assert!(publisher.is_idle());
    assert_eq!(publisher.observable_state(), fresh());
    assert_eq!(metastore.call_count(), 0);
    assert_eq!(metastore.segment_ids("J"), ids(&[]));
}

#[test]
fn a_publisher_without_indexes_takes_nothing() {
    let mut publisher = publisher_for(&[], 3);
    assert_eq!(
        publisher.process_message(split("I", "S1", 5)),
        Action::Reject(RejectReason::Invalid, split("I", "S1", 5))
    );
}

#[test]
fn a_busy_publisher_hands_the_next_message_back() {
    let mut publisher = publisher_for(&["I"], 3);
    publisher.process_message(split("I", "S1", 5));
    assert_eq!(
        publisher.process_message(split("I", "S2", 6)),
        Action::Reject(RejectReason::Busy, split("I", "S2", 6))
    );
    assert_eq!(publisher.handle_reply(PublishOutcome::Unexpected), Action::Wait(100));
    assert_eq!(
        publisher.process_message(split("I", "S2", 6)),
        Action::Reject(RejectReason::Busy, split("I", "S2", 6))
    );
    assert_eq!(publisher.handle_wakeup(), Action::Publish(request("I", "S1", 5)));
    assert_eq!(publisher.handle_reply(PublishOutcome::Committed), Action::Acknowledge);
    assert_eq!(publisher.observable_state().last_published_segment_id, Some("S1".to_string()));
    assert_eq!(
        publisher.process_message(split("I", "S2", 6)),
        Action::Publish(request("I", "S2", 6))
    );
}

#[test]
fn an_idle_publisher_stops_at_once() {
    let mut publisher = publisher_for(&["I"], 3);
    assert!(!publisher.is_stopped());
    assert_eq!(publisher.handle(Event::Shutdown), Action::Stop);
    assert!(publisher.is_stopped());
    assert!(!publisher.is_idle());
    assert_eq!(
        publisher.handle(Event::Message(split("I", "S1", 5))),
        Action::Reject(RejectReason::Stopped, split("I", "S1", 5))
    );
    assert_eq!(publisher.handle(Event::Shutdown), Action::Nothing);
    assert_eq!(publisher.handle(Event::Wakeup), Action::Nothing);
    assert_eq!(publisher.handle(Event::Reply(PublishOutcome::Committed)), Action::Nothing);
    assert_eq!(publisher.observable_state(), fresh());
    assert!(publisher.is_stopped());
}

#[test]
fn a_call_under_way_ends_before_the_publisher_stops() {
    let mut publisher = publisher_for(&["I"], 3);
    publisher.process_message(split("I", "S1", 5));
    assert_eq!(publisher.handle_shutdown(), Action::Nothing);
    assert!(!publisher.is_stopped());
    assert_eq!(publisher.handle_reply(PublishOutcome::Committed), Action::Acknowledge);
    assert!(publisher.is_stopped());
    assert_eq!(publisher.observable_state().published_count, 1);
    assert_eq!(publisher.observable_state().last_published_segment_id, Some("S1".to_string()));
}

#[test]
fn a_dropped_message_ends_before_the_publisher_stops() {
    let mut publisher = publisher_for(&["I"], 3);
    publisher.process_message(split("I", "S1", 5));
    assert_eq!(publisher.handle_shutdown(), Action::Nothing);
    assert_eq!(
        publisher.handle_reply(PublishOutcome::Conflict(ConflictKind::UnknownIndex)),
        Action::Discard(ErrorKind::UnknownIndex)
    );
    assert!(publisher.is_stopped());
    assert_eq!(publisher.observable_state().last_error_kind, Some(ErrorKind::UnknownIndex));
}

#[test]
fn a_shutdown_is_honoured_at_the_wakeup() {
    let mut publisher = publisher_for(&["I"], 3);
    publisher.process_message(split("I", "S1", 5));
    assert_eq!(
        publisher.handle_reply(PublishOutcome::Conflict(ConflictKind::Transient)),
        Action::Wait(100)
    );
    assert_eq!(publisher.handle_shutdown(), Action::Nothing);
    assert!(!publisher.is_stopped());
    assert_eq!(publisher.handle_wakeup(), Action::Stop);
    assert!(publisher.is_stopped());
    assert_eq!(publisher.observable_state(), fresh());
}

#[test]
fn a_shutdown_during_a_call_that_fails_is_honoured_at_the_wakeup() {
    let mut publisher = publisher_for(&["I"], 3);
    publisher.process_message(split("I", "S1", 5));
    assert_eq!(publisher.handle_shutdown(), Action::Nothing);
    assert_eq!(publisher.handle_reply(PublishOutcome::Unexpected), Action::Wait(100));
    assert!(!publisher.is_stopped());
    assert_eq!(publisher.handle_wakeup(), Action::Stop);
    assert!(publisher.is_stopped());
    assert_eq!(publisher.observable_state().published_count, 0);
}

#[test]
fn events_that_nothing_waits_for_change_nothing() {
    let mut publisher = publisher_for(&["I"], 3);
    assert_eq!(publisher.handle_reply(PublishOutcome::Committed), Action::Nothing);
    assert_eq!(publisher.handle_wakeup(), Action::Nothing);
    assert_eq!(publisher.observable_state(), fresh());
    assert!(publisher.is_idle());
    publisher.process_message(split("I", "S1", 5));
    assert_eq!(publisher.handle_wakeup(), Action::Nothing);
    assert_eq!(publisher.handle_reply(PublishOutcome::Unexpected), Action::Wait(100));
    assert_eq!(publisher.handle_reply(PublishOutcome::Committed), Action::Nothing);
    assert_eq!(publisher.observable_state(), fresh());
    assert_eq!(publisher.handle_wakeup(), Action::Publish(request("I", "S1", 5)));
}

#[test]
fn outcomes_are_classified() {
    assert_eq!(classify(PublishOutcome::Committed), Verdict::Success);
    assert_eq!(
        classify(PublishOutcome::Conflict(ConflictKind::AlreadyPublished)),
        Verdict::Success
    );
    assert_eq!(
        classify(PublishOutcome::Conflict(ConflictKind::StaleCheckpoint)),
        Verdict::Drop(ErrorKind::StaleCheckpoint)
    );
    assert_eq!(
        classify(PublishOutcome::Conflict(ConflictKind::UnknownIndex)),
        Verdict::Drop(ErrorKind::UnknownIndex)
    );
    assert_eq!(classify(PublishOutcome::Conflict(ConflictKind::Transient)), Verdict::Retry);
    assert_eq!(classify(PublishOutcome::Unexpected), Verdict::Retry);
    assert_eq!(PublishOutcome::from_answer(Ok(())), PublishOutcome::Committed);
    assert_eq!(
        PublishOutcome::from_answer(Err(ConflictKind::Transient)),
        PublishOutcome::Conflict(ConflictKind::Transient)
    );
}

#[test]
fn the_metastore_sees_the_messages_in_their_order() {
    let mut publisher = publisher_for(&["I", "J"], 4);
    let mut metastore = metastore_with(&["I", "J"]);
    let messages = vec![
        split("I", "A", 1),
        split("J", "B", 9),
        split("I", "C", 2),
        split("I", "D", 2),
        split("J", "E", 9),
    ];
    for message in messages {
        assert_eq!(deliver(&mut publisher, &mut metastore, message), Action::Acknowledge);
    }
    assert_eq!(metastore.segment_ids("I"), ids(&["A", "C", "D"]));
    assert_eq!(metastore.segment_ids("J"), ids(&["B", "E"]));
    assert_eq!(metastore.call_count(), 5);
    assert_eq!(metastore.call(0), request("I", "A", 1));
    assert_eq!(metastore.call(1), request("J", "B", 9));
    assert_eq!(metastore.call(2), request("I", "C", 2));
    assert_eq!(metastore.call(3), request("I", "D", 2));
    assert_eq!(metastore.call(4), request("J", "E", 9));
    assert_eq!(publisher.observable_state().published_count, 5);
    assert_eq!(publisher.observable_state().last_published_segment_id, Some("E".to_string()));
}

#[test]
fn retries_keep_the_order_of_the_messages() {
    let mut publisher = publisher_for(&["I"], 4);
    let mut metastore = metastore_with(&["I"]);
    metastore.fail_next(2);
    assert_eq!(deliver(&mut publisher, &mut metastore, split("I", "A", 1)), Action::Acknowledge);
    assert_eq!(
        deliver(&mut publisher, &mut metastore, split("I", "", 1)),
        Action::Reject(RejectReason::Invalid, split("I", "", 1))
    );
    metastore.fail_next(1);
    assert_eq!(deliver(&mut publisher, &mut metastore, split("I", "B", 2)), Action::Acknowledge);
    assert_eq!(metastore.call_count(), 5);
    for i in 0..3 {
        assert_eq!(metastore.call(i), request("I", "A", 1));
    }
    for i in 3..5 {
        assert_eq!(metastore.call(i), request("I", "B", 2));
    }
    assert_eq!(metastore.segment_ids("I"), ids(&["A", "B"]));
}

#[test]
fn the_metastore_answers_as_its_contract_says() {
    let mut metastore = MemoryMetastore::new();
    assert!(!metastore.has_index("I"));
    assert_eq!(
        metastore.publish_segment(&request("I", "S1", 5)),
        Err(ConflictKind::UnknownIndex)
    );
    assert!(metastore.create_index("I"));
    assert!(!metastore.create_index("I"));
    assert!(metastore.has_index("I"));
    assert_eq!(metastore.checkpoint("I"), Some(0));
    assert_eq!(metastore.checkpoint("J"), None);
    assert_eq!(metastore.publish_segment(&request("I", "S1", 5)), Ok(()));
    assert_eq!(
        metastore.publish_segment(&request("I", "S1", 5)),
        Err(ConflictKind::AlreadyPublished)
    );
    assert_eq!(
        metastore.publish_segment(&request("I", "S1", 3)),
        Err(ConflictKind::AlreadyPublished)
    );
    assert_eq!(
        metastore.publish_segment(&request("I", "S2", 4)),
        Err(ConflictKind::StaleCheckpoint)
    );
    assert_eq!(metastore.publish_segment(&request("I", "S2", 5)), Ok(()));
    assert_eq!(metastore.publish_segment(&request("I", "S3", 8)), Ok(()));
    assert_eq!(metastore.segment_ids("I"), ids(&["S1", "S2", "S3"]));
    assert_eq!(metastore.checkpoint("I"), Some(8));
    assert_eq!(metastore.call_count(), 7);
}

#[test]
fn pending_faults_fail_the_next_calls_and_commit_nothing() {
    let mut metastore = metastore_with(&["I"]);
    metastore.fail_next(2);
    assert_eq!(metastore.pending_faults(), 2);
    assert_eq!(metastore.publish_segment(&request("I", "S1", 5)), Err(ConflictKind::Transient));
    assert_eq!(metastore.publish_segment(&request("X", "S1", 5)), Err(ConflictKind::Transient));
    assert_eq!(metastore.pending_faults(), 0);
    assert_eq!(metastore.segment_ids("I"), ids(&[]));
    assert_eq!(metastore.publish_segment(&request("I", "S1", 5)), Ok(()));
    assert_eq!(metastore.segment_ids("I"), ids(&["S1"]));
    assert_eq!(metastore.call_count(), 3);
}

#[test]
fn indexes_of_the_metastore_are_apart() {
    let mut metastore = metastore_with(&["I", "J"]);
    assert_eq!(metastore.publish_segment(&request("I", "S1", 9)), Ok(()));
    assert_eq!(metastore.publish_segment(&request("J", "S1", 2)), Ok(()));
    assert_eq!(metastore.segment_ids("I"), ids(&["S1"]));
    assert_eq!(metastore.segment_ids("J"), ids(&["S1"]));
    assert_eq!(metastore.checkpoint("I"), Some(9));
    assert_eq!(metastore.checkpoint("J"), Some(2));
}

#[test]
fn a_split_gives_its_request() {
    let s = split("I", "S1", 5);
    assert_eq!(s.request(), request("I", "S1", 5));
    assert_eq!(request("I", "S1", 5).duplicate(), request("I", "S1", 5));
    let bare = UploadedSplit {
        segment_id: "S".to_string(),
        index_id: "I".to_string(),
        time_range: None,
        size_bytes: 0,
        checkpoint: u64::MAX,
    };
    assert_eq!(
        bare.request(),
        PublishRequest {
            index_id: "I".to_string(),
            segment_id: "S".to_string(),
            time_range: None,
            checkpoint: u64::MAX,
        }
    );
}

#[test]
fn a_request_spans_from_the_stored_checkpoint_to_its_own() {
    assert_eq!(request("I", "S1", 5).span_from(0), Some((0, 5)));
    assert_eq!(request("I", "S1", 5).span_from(3), Some((3, 5)));
    assert_eq!(request("I", "S1", 5).span_from(5), Some((5, 5)));
    assert_eq!(request("I", "S1", 0).span_from(0), Some((0, 0)));
    assert_eq!(request("I", "S1", u64::MAX).span_from(u64::MAX), Some((u64::MAX, u64::MAX)));
}

#[test]
fn a_stale_request_spans_nothing() {
    assert_eq!(request("I", "S1", 5).span_from(6), None);
    assert_eq!(request("I", "S1", 0).span_from(1), None);
    assert_eq!(request("I", "S1", 5).span_from(u64::MAX), None);
}

#[test]
fn a_request_is_stale_for_its_span_as_it_is_for_the_metastore() {
    let mut metastore = metastore_with(&["I"]);
    assert_eq!(metastore.publish_segment(&request("I", "S1", 5)), Ok(()));
    let stored = metastore.checkpoint("I").unwrap();
    for checkpoint in [0u64, 4, 5, 6, 100] {
        let next = request("I", "S2", checkpoint);
        let stale = next.span_from(stored).is_none();
        let mut copy = metastore_with(&["I"]);
        assert_eq!(copy.publish_segment(&request("I", "S1", 5)), Ok(()));
        assert_eq!(
            copy.publish_segment(&next) == Err(ConflictKind::StaleCheckpoint),
            stale,
            "checkpoint {}",
            checkpoint
        );
    }
}
