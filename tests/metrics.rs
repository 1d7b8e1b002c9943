use dyndns::config::Provider;
use dyndns::metrics::{decimal_text, gauge_sample, push_url};

#[test]
fn decimal_texts() {
    assert_eq!(decimal_text(0), "0");
    assert_eq!(decimal_text(7), "7");
    assert_eq!(decimal_text(10), "10");
    assert_eq!(decimal_text(1700000000), "1700000000");
    assert_eq!(decimal_text(u64::MAX), "18446744073709551615");
}

#[test]
fn push_url_names_the_job() {
    assert_eq!(
        push_url("http://gw:9091", Provider::Route53.job_name()),
        "http://gw:9091/metrics/job/dyndns_route53"
    );
    assert_eq!(Provider::Cloudflare.job_name(), "dyndns_cloudflare");
}

#[test]
fn sample_line() {
    assert_eq!(
        gauge_sample(1700000000),
        "last_successful_execution_timestamp_seconds 1700000000\n"
    );
}
