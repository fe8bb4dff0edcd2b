use rest_latency::metrics::{metrics_reply, Metrics, MetricsReply};

#[test]
fn metrics_are_defined() {
    let metrics = Metrics::new();
    assert_eq!(metrics.latency.name, "route_latency_seconds");
    assert_eq!(metrics.latency.help, "HTTP route latency in seconds");
    assert_eq!(metrics.latency.labels, vec!["route".to_string()]);
    assert_eq!(metrics.auth_attempts.name, "auth_attempts_total");
    assert_eq!(metrics.auth_attempts.help, "Authentication attempts by status");
    assert_eq!(
        metrics.auth_attempts.labels,
        vec!["auth_name".to_string(), "status".to_string()]
    );
}

#[test]
fn buckets_in_seconds_are_exact_and_ascend() {
    let seconds: Vec<f64> =
        Metrics::new().latency.buckets_ms.iter().map(|ms| *ms as f64 / 1000.0).collect();
    assert_eq!(
        seconds,
        vec![0.005, 0.01, 0.025, 0.05, 0.1, 0.25, 0.375, 0.5, 0.75, 1.0, 2.5, 5.0, 10.0]
    );
    assert!(seconds.windows(2).all(|pair| pair[0] < pair[1]));
}

#[test]
fn encoded_metrics_are_served() {
    match metrics_reply(Ok(vec![1, 2, 3]), "text/plain; version=0.0.4") {
        MetricsReply::Encoded { status, content_type, body } => {
            assert_eq!(status, 200);
            assert_eq!(content_type, "text/plain; version=0.0.4");
            assert_eq!(body, vec![1, 2, 3]);
        }
        MetricsReply::Failed { .. } => panic!("failed"),
    }
}

#[test]
fn metrics_that_cannot_be_encoded_are_an_error() {
    match metrics_reply(Err("broken".to_string()), "text/plain") {
        MetricsReply::Failed { status, message } => {
            assert_eq!(status, 500);
            assert_eq!(message, "Failed to encode metrics");
        }
        MetricsReply::Encoded { .. } => panic!("encoded"),
    }
}
