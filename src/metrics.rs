//! Registration of the proxy's Prometheus metrics.
use prometheus::{Histogram, Registry};
use vstd::prelude::*;

verus! {

#[verifier::external_type_specification]
#[verifier::external_body]
pub struct ExRegistry(Registry);

#[verifier::external_type_specification]
#[verifier::external_body]
pub struct ExHistogram(Histogram);

#[verifier::external_type_specification]
#[verifier::external_body]
pub struct ExMetricsError(prometheus::Error);

/// A metric the registry refused.
#[derive(Debug)]
pub struct RegisterError {
    /// Name of the metric.
    pub metric: String,
    /// Why the registry refused it.
    pub source: prometheus::Error,
}

/// The names of the proxy's metrics, in registration order.
pub open spec fn metric_names() -> Seq<Seq<char>> {
    seq![
        "s3proxy_http_requests_total"@,
        "s3proxy_http_request_duration_seconds"@,
        "s3proxy_storage_operations_total"@,
        "s3proxy_storage_operation_duration_seconds"@,
    ]
}

/// Relies on `Registry::register`: adds a copy of the collector to the
/// registry, or fails when it is invalid or already there.
#[verifier::external_body]
fn register_collector<C: prometheus::core::Collector + Clone + 'static>(r: &Registry, c: &C) -> Result<
    (),
    prometheus::Error,
> {
    r.register(Box::new(c.clone()))
}

fn refused(metric: &str, source: prometheus::Error) -> (r: RegisterError)
    ensures
        r.metric@ == metric@,
{
    RegisterError { metric: String::from_str(metric), source }
}

/// Registers the proxy's four metrics with `registry`, in order: HTTP
/// requests by method and status, HTTP request latency, storage operations by
/// operation and status, storage operation latency. Stops at the first one
/// refused, which the error names.
pub fn init_metrics<V: prometheus::core::Collector + Clone + 'static>(
    registry: &Registry,
    http_requests: &V,
    http_request_duration: &Histogram,
    storage_operations: &V,
    storage_operation_duration: &Histogram,
) -> (r: Result<(), RegisterError>)
    ensures
        r is Err ==> metric_names().contains(r->Err_0.metric@),
{
    if let Err(e) = register_collector(registry, http_requests) {
        let r = refused("s3proxy_http_requests_total", e);
        assert(metric_names()[0] == r.metric@);
        return Err(r);
    }
    if let Err(e) = register_collector(registry, http_request_duration) {
        let r = refused("s3proxy_http_request_duration_seconds", e);
        assert(metric_names()[1] == r.metric@);
        return Err(r);
    }
    if let Err(e) = register_collector(registry, storage_operations) {
        let r = refused("s3proxy_storage_operations_total", e);
        assert(metric_names()[2] == r.metric@);
        return Err(r);
    }
    if let Err(e) = register_collector(registry, storage_operation_duration) {
        let r = refused("s3proxy_storage_operation_duration_seconds", e);
        assert(metric_names()[3] == r.metric@);
        return Err(r);
    }
    Ok(())
}

} // verus!
