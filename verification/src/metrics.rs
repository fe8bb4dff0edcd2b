//! The metrics that are recorded, and how they are served.
use vstd::prelude::*;

verus! {

/// A metric that counts.
#[derive(Debug)]
pub struct CounterDef {
    pub name: String,
    pub help: String,
    pub labels: Vec<String>,
}

/// A metric that sorts durations into buckets.
#[derive(Debug)]
pub struct HistogramDef {
    pub name: String,
    pub help: String,
    pub labels: Vec<String>,
    /// The upper bounds of the buckets, in milliseconds.
    pub buckets_ms: Vec<u64>,
}

/// The metrics that are recorded. Their values are in floating point and are kept, and shown, by
/// the registry at which the server registers them.
#[derive(Debug)]
pub struct Metrics {
    /// The latency of routes, by route.
    pub latency: HistogramDef,
    /// The attempts to get a token, by auth and status.
    pub auth_attempts: CounterDef,
}

/// The upper bounds of the buckets of the latency metric, in milliseconds.
pub open spec fn latency_buckets_ms() -> Seq<u64> {
    seq![5u64, 10, 25, 50, 100, 250, 375, 500, 750, 1000, 2500, 5000, 10000]
}

/// The text of `labels`.
pub open spec fn label_texts(labels: Seq<String>) -> Seq<Seq<char>> {
    labels.map_values(|label: String| label@)
}

impl Metrics {
    /// The metrics that are recorded.
    pub fn new() -> (metrics: Metrics)
        ensures
            metrics.latency.name@ == "route_latency_seconds"@,
            metrics.latency.help@ == "HTTP route latency in seconds"@,
            label_texts(metrics.latency.labels@) == seq!["route"@],
            metrics.latency.buckets_ms@ == latency_buckets_ms(),
            metrics.auth_attempts.name@ == "auth_attempts_total"@,
            metrics.auth_attempts.help@ == "Authentication attempts by status"@,
            label_texts(metrics.auth_attempts.labels@) == seq!["auth_name"@, "status"@],
    {
        let mut latency_labels: Vec<String> = Vec::new();
        latency_labels.push("route".to_owned());
        assert(label_texts(latency_labels@) =~= seq!["route"@]);
        let buckets_ms: Vec<u64> = vec![
            5, 10, 25, 50, 100, 250, 375, 500, 750, 1000, 2500, 5000, 10000,
        ];
        assert(buckets_ms@ =~= latency_buckets_ms());
        let mut attempt_labels: Vec<String> = Vec::new();
        attempt_labels.push("auth_name".to_owned());
        attempt_labels.push("status".to_owned());
        assert(label_texts(attempt_labels@) =~= seq!["auth_name"@, "status"@]);
        Metrics {
            latency: HistogramDef {
                name: "route_latency_seconds".to_owned(),
                help: "HTTP route latency in seconds".to_owned(),
                labels: latency_labels,
                buckets_ms,
            },
            auth_attempts: CounterDef {
                name: "auth_attempts_total".to_owned(),
                help: "Authentication attempts by status".to_owned(),
                labels: attempt_labels,
            },
        }
    }
}

/// Each bucket of the latency metric reaches further than the one before, and the first one
/// further than nothing.
pub proof fn law_latency_buckets_ascend(i: int, j: int)
    requires
        0 <= i < j < latency_buckets_ms().len(),
    ensures
        0 < latency_buckets_ms()[i] < latency_buckets_ms()[j],
{
}

/// What a request for the metrics is answered.
#[derive(Debug)]
pub enum MetricsReply {
    /// The metrics, in the format `content_type`.
    Encoded { status: u16, content_type: String, body: Vec<u8> },
    /// That they could not be had.
    Failed { status: u16, message: String },
}

/// What a request for the metrics is answered, given what putting them into the format
/// `content_type` gave: the bytes, or the words of the cause for which there are none.
pub fn metrics_reply(encoded: Result<Vec<u8>, String>, content_type: &str) -> (reply: MetricsReply)
    ensures
        match encoded {
            Ok(bytes) => reply matches MetricsReply::Encoded { status, content_type: format, body }
                && status == 200 && format@ == content_type@ && body == bytes,
            Err(_) => reply matches MetricsReply::Failed { status, message } && status == 500
                && message@ == "Failed to encode metrics"@,
        },
{
    match encoded {
        Ok(body) => MetricsReply::Encoded {
            status: 200,
            content_type: content_type.to_owned(),
            body,
        },
        Err(_) => MetricsReply::Failed {
            status: 500,
            message: "Failed to encode metrics".to_owned(),
        },
    }
}

/// A request for the metrics is answered with success, in the given format and with just the bytes
/// that they were put into, exactly where that succeeded; otherwise with an error of the server,
/// whatever the cause.
pub proof fn law_metrics_are_served_as_they_were_encoded(
    encoded: Result<Vec<u8>, String>,
    content_type: &str,
    reply: MetricsReply,
)
    requires
        call_ensures(metrics_reply, (encoded, content_type), reply),
    ensures
        match (encoded, reply) {
            (Ok(bytes), MetricsReply::Encoded { status, content_type: format, body }) => status
                == 200 && format@ == content_type@ && body@ == bytes@,
            (Err(_), MetricsReply::Failed { status, message }) => status == 500 && message@
                == "Failed to encode metrics"@,
            _ => false,
        },
{
}

} // verus!
