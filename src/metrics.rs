use vstd::prelude::*;
use vstd::string::{StrSliceExecFns, StringExecFns};
use crate::config::Provider;

verus! {

/// The name of the gauge that records the last successful run.
pub open spec fn gauge_name() -> Seq<char> {
    "last_successful_execution_timestamp_seconds"@
}

pub open spec fn digit_char(d: nat) -> char {
    "0123456789"@[d as int]
}

/// The decimal text of `n`, without leading zeros.
pub open spec fn decimal(n: nat) -> Seq<char>
    decreases n,
{
    if n < 10 {
        seq![digit_char(n)]
    } else {
        decimal(n / 10).push(digit_char(n % 10))
    }
}

/// The job under which a run with the given provider reports its metrics.
pub open spec fn job_of(p: Provider) -> Seq<char> {
    match p {
        Provider::Route53 => "dyndns_route53"@,
        Provider::Cloudflare => "dyndns_cloudflare"@,
    }
}

/// The URL to which the metrics of `job` are pushed.
pub open spec fn push_url_of(endpoint: Seq<char>, job: Seq<char>) -> Seq<char> {
    endpoint + "/metrics/job/"@ + job
}

/// The metric sample posted after a successful run at Unix time `ts`.
pub open spec fn sample_of(ts: nat) -> Seq<char> {
    gauge_name() + " "@ + decimal(ts) + "\n"@
}

/// The decimal text of `n`.
pub fn decimal_text(n: u64) -> (r: String)
    ensures
        r@ == decimal(n as nat),
    decreases n,
{
    let digits = "0123456789";
    proof {
        reveal_strlit("0123456789");
    }
    let d = (n % 10) as usize;
    let last = digits.substring_char(d, d + 1);
    assert(last@ =~= seq![digit_char(d as nat)]);
    if n < 10 {
        last.to_owned()
    } else {
        let mut r = decimal_text(n / 10);
        r.append(last);
        assert(r@ =~= decimal(n as nat));
        r
    }
}

impl Provider {
    /// The job name under which the metrics of a run are pushed.
    pub fn job_name(&self) -> (r: &'static str)
        ensures
            r@ == job_of(*self),
    {
        match self {
            Provider::Route53 => "dyndns_route53",
            Provider::Cloudflare => "dyndns_cloudflare",
        }
    }
}

/// `{endpoint}/metrics/job/{job}`.
pub fn push_url(endpoint: &str, job: &str) -> (r: String)
    ensures
        r@ == push_url_of(endpoint@, job@),
{
    let mut r = endpoint.to_owned();
    r.append("/metrics/job/");
    r.append(job);
    r
}

/// The text body that reports a successful run at Unix time `ts`: one line
/// holding the gauge's name and the timestamp.
pub fn gauge_sample(ts: u64) -> (r: String)
    ensures
        r@ == sample_of(ts as nat),
{
    let mut r = "last_successful_execution_timestamp_seconds".to_owned();
    r.append(" ");
    let digits = decimal_text(ts);
    r.append(digits.as_str());
    r.append("\n");
    r
}

} // verus!
