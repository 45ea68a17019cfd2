use smog_rs::delivery::{
    classify, DeliveryAction, NetworkTask, PostOutcome, Verdict, CONNECT_RETRY_MS, RATE_LIMIT_COOLDOWN_MS,
    TRANSPORT_RETRY_MS,
};

#[test]
fn scripted_responses_rebuild_only_after_transport_errors() {
    let script = [
        PostOutcome::TransportFailed,
        PostOutcome::Status(200),
        PostOutcome::Status(429),
        PostOutcome::Status(500),
        PostOutcome::TransportFailed,
    ];
    let mut t = NetworkTask::new(true);
    assert_eq!(t.next_action(), DeliveryAction::Connect);
    assert_eq!(t.on_connect(true), 0);
    let mut rebuilds = 0;
    let mut posts = 0;
    for outcome in script {
        assert_eq!(t.next_action(), DeliveryAction::Deliver);
        posts += 1;
        let report = t.on_post(outcome);
        let rebuild = t.next_action() == DeliveryAction::Connect;
        assert_eq!(rebuild, outcome == PostOutcome::TransportFailed);
        if rebuild {
            rebuilds += 1;
            assert_eq!(report.delay_ms, TRANSPORT_RETRY_MS);
            t.on_connect(true);
        }
    }
    assert_eq!(posts, 5);
    assert_eq!(rebuilds, 2);
}

#[test]
fn disabled_task_never_posts() {
    let mut t = NetworkTask::new(false);
    for _ in 0..10 {
        assert_eq!(t.next_action(), DeliveryAction::StandBy);
        t.on_connect(true);
        t.on_post(PostOutcome::Status(200));
    }
    assert_eq!(t.next_action(), DeliveryAction::StandBy);
}

#[test]
fn status_classification_and_delays() {
    assert_eq!(classify(PostOutcome::Status(200)), Verdict::Delivered);
    assert_eq!(classify(PostOutcome::Status(201)), Verdict::Delivered);
    assert_eq!(classify(PostOutcome::Status(429)), Verdict::RateLimited);
    assert_eq!(classify(PostOutcome::Status(404)), Verdict::ServerError);
    assert_eq!(classify(PostOutcome::Status(503)), Verdict::ServerError);
    assert_eq!(classify(PostOutcome::TransportFailed), Verdict::TransportFailed);
    let mut t = NetworkTask::new(true);
    t.on_connect(true);
    assert_eq!(t.on_post(PostOutcome::Status(429)).delay_ms, RATE_LIMIT_COOLDOWN_MS);
    assert_eq!(t.on_post(PostOutcome::Status(201)).delay_ms, 0);
    assert_eq!(t.on_post(PostOutcome::Status(500)).delay_ms, 0);
    assert_eq!(t.next_action(), DeliveryAction::Deliver);
}

#[test]
fn failed_client_build_is_retried_after_pause() {
    let mut t = NetworkTask::new(true);
    assert_eq!(t.on_connect(false), CONNECT_RETRY_MS);
    assert_eq!(t.next_action(), DeliveryAction::Connect);
    assert_eq!(t.on_connect(true), 0);
    assert_eq!(t.next_action(), DeliveryAction::Deliver);
}
