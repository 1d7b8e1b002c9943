use vstd::prelude::*;
use crate::address::{lookup, trim, trimmed};
use crate::config::{config_from, kind_of, load_config, Config, ConfigError, Environment};
use crate::metrics::{job_of, push_url, push_url_of};
use crate::update::DNSUpdateError;

verus! {

/// The port named in the lookup of the host.
pub const LOOKUP_PORT: u16 = 80;

/// Why a run stopped before it finished.
pub enum RunError {
    /// The configuration is incomplete or wrong; no network call was made.
    Config(ConfigError),
    /// The external address could not be fetched: a failed connection or a
    /// status other than success.
    Transport(String),
    /// The lookup of the host name failed.
    LookupFailed(String),
    /// The lookup of the host name succeeded with no address.
    NoAddress(String),
    /// The provider did not take the new record.
    Update(DNSUpdateError),
    /// The metrics could not be pushed. The record is up to date by then,
    /// but the run still fails, so that a stale gauge does not go unnoticed.
    Metrics(String),
}

/// Where a run stands: what it waits for.
pub enum State {
    FetchingExternalIp,
    ResolvingHost { external_ip: String },
    Updating,
    Reporting,
    Finished,
}

/// The outcome of the outside work that an action asked for.
pub enum Event {
    /// The body of the external-address service's reply, or the transport error.
    ExternalIpFetched(Result<String, String>),
    /// The addresses the host name resolved to, in order, or the lookup error.
    HostResolved(Result<Vec<String>, String>),
    /// The outcome of the record update.
    Updated(Result<(), DNSUpdateError>),
    /// The outcome of the metrics push.
    MetricsPushed(Result<(), String>),
}

/// The outside work a run asks for next.
pub enum Action {
    /// Fetch the caller's external address.
    FetchExternalIp,
    /// Look the host name up in DNS.
    ResolveHost { host_name: String, port: u16 },
    /// Point the host's record at the new value, with the configured provider.
    Update { host_name: String, record_value: String },
    /// Post the sample of a successful run to this URL.
    PushMetrics { url: String },
    /// Stop, with this outcome.
    Exit(Result<(), RunError>),
}

/// Whether `event` is the outcome of the work that a run in `state` waits for.
pub open spec fn accepts(state: State, event: Event) -> bool {
    match (state, event) {
        (State::FetchingExternalIp, Event::ExternalIpFetched(_)) => true,
        (State::ResolvingHost { .. }, Event::HostResolved(_)) => true,
        (State::Updating, Event::Updated(_)) => true,
        (State::Reporting, Event::MetricsPushed(_)) => true,
        _ => false,
    }
}

/// The first state and action of a run in the given environment: the run
/// stops with a configuration error at once, or fetches the external address.
pub open spec fn started(env: Environment, r: (Option<Config>, State, Action)) -> bool {
    match config_from(env) {
        Err(e) => r.0 is None && r.1 is Finished && r.2 == Action::Exit(
            Err(RunError::Config(e)),
        ),
        Ok(c) => r.0 == Some(c) && r.1 is FetchingExternalIp && r.2 is FetchExternalIp,
    }
}

/// What follows an unchanged address or an accepted update: the metrics
/// push, where a push gateway is configured, else a successful exit.
pub open spec fn reported(config: Config, next: State, action: Action) -> bool {
    match config.push_gateway_host {
        None => next is Finished && action == Action::Exit(Ok(())),
        Some(h) => next is Reporting && (action matches Action::PushMetrics { url } && url@
            == push_url_of(h@, job_of(kind_of(config.provider)))),
    }
}

/// The step of a run from `state` on `event`, to `next` and `action`.
pub open spec fn transition(
    config: Config,
    state: State,
    event: Event,
    next: State,
    action: Action,
) -> bool {
    match (state, event) {
        (State::FetchingExternalIp, Event::ExternalIpFetched(Ok(body))) => {
            &&& next matches State::ResolvingHost { external_ip } && external_ip@ == trimmed(
                body@,
            )
            &&& action matches Action::ResolveHost { host_name, port } && host_name@
                == config.host_name@ && port == LOOKUP_PORT
        },
        (State::FetchingExternalIp, Event::ExternalIpFetched(Err(m))) => {
            next is Finished && action == Action::Exit(Err(RunError::Transport(m)))
        },
        (State::ResolvingHost { .. }, Event::HostResolved(Err(m))) => {
            next is Finished && action == Action::Exit(Err(RunError::LookupFailed(m)))
        },
        (State::ResolvingHost { external_ip }, Event::HostResolved(Ok(addresses))) => {
            if addresses@.len() == 0 {
                next is Finished && (action matches Action::Exit(Err(RunError::NoAddress(h)))
                    && h@ == config.host_name@)
            } else if trimmed(addresses@[0]@) != external_ip@ {
                next is Updating && (action matches Action::Update { host_name, record_value }
                    && host_name@ == config.host_name@ && record_value@ == external_ip@)
            } else {
                reported(config, next, action)
            }
        },
        (State::Updating, Event::Updated(Ok(_))) => reported(config, next, action),
        (State::Updating, Event::Updated(Err(e))) => {
            next is Finished && action == Action::Exit(Err(RunError::Update(e)))
        },
        (State::Reporting, Event::MetricsPushed(Ok(_))) => {
            next is Finished && action == Action::Exit(Ok(()))
        },
        (State::Reporting, Event::MetricsPushed(Err(m))) => {
            next is Finished && action == Action::Exit(Err(RunError::Metrics(m)))
        },
        _ => false,
    }
}

impl State {
    /// Whether `event` is what a run in this state waits for.
    pub fn accepts(&self, event: &Event) -> (r: bool)
        ensures
            r == accepts(*self, *event),
    {
        match (self, event) {
            (State::FetchingExternalIp, Event::ExternalIpFetched(_)) => true,
            (State::ResolvingHost { .. }, Event::HostResolved(_)) => true,
            (State::Updating, Event::Updated(_)) => true,
            (State::Reporting, Event::MetricsPushed(_)) => true,
            _ => false,
        }
    }
}

/// Starts a run: reads the configuration out of the environment's values.
pub fn start(env: Environment) -> (r: (Option<Config>, State, Action))
    ensures
        started(env, r),
{
    match load_config(env) {
        Err(e) => (None, State::Finished, Action::Exit(Err(RunError::Config(e)))),
        Ok(c) => (Some(c), State::FetchingExternalIp, Action::FetchExternalIp),
    }
}

fn report(config: &Config) -> (r: (State, Action))
    ensures
        reported(*config, r.0, r.1),
{
    match &config.push_gateway_host {
        None => (State::Finished, Action::Exit(Ok(()))),
        Some(h) => {
            let kind = config.provider.kind();
            let url = push_url(h.as_str(), kind.job_name());
            (State::Reporting, Action::PushMetrics { url })
        },
    }
}

/// Takes a run one step: from `state`, on the outcome `event` of the work it
/// waited for, to the next state and the work to do next.
pub fn step(config: &Config, state: State, event: Event) -> (r: (State, Action))
    requires
        accepts(state, event),
    ensures
        transition(*config, state, event, r.0, r.1),
{
    match (state, event) {
        (State::FetchingExternalIp, Event::ExternalIpFetched(Ok(body))) => {
            let external_ip = trim(body.as_str());
            (
                State::ResolvingHost { external_ip },
                Action::ResolveHost { host_name: config.host_name.clone(), port: LOOKUP_PORT },
            )
        },
        (State::FetchingExternalIp, Event::ExternalIpFetched(Err(m))) => {
            (State::Finished, Action::Exit(Err(RunError::Transport(m))))
        },
        (State::ResolvingHost { .. }, Event::HostResolved(Err(m))) => {
            (State::Finished, Action::Exit(Err(RunError::LookupFailed(m))))
        },
        (State::ResolvingHost { external_ip }, Event::HostResolved(Ok(addresses))) => {
            match lookup(&addresses) {
                None => (
                    State::Finished,
                    Action::Exit(Err(RunError::NoAddress(config.host_name.clone()))),
                ),
                Some(published_ip) => {
                    if needs_update(&external_ip, &published_ip) {
                        (
                            State::Updating,
                            Action::Update {
                                host_name: config.host_name.clone(),
                                record_value: external_ip,
                            },
                        )
                    } else {
                        report(config)
                    }
                },
            }
        },
        (State::Updating, Event::Updated(Ok(_))) => report(config),
        (State::Updating, Event::Updated(Err(e))) => {
            (State::Finished, Action::Exit(Err(RunError::Update(e))))
        },
        (State::Reporting, Event::MetricsPushed(Ok(_))) => {
            (State::Finished, Action::Exit(Ok(())))
        },
        (State::Reporting, Event::MetricsPushed(Err(m))) => {
            (State::Finished, Action::Exit(Err(RunError::Metrics(m))))
        },
        _ => { (State::Finished, Action::Exit(Ok(()))) },
    }
}

/// Whether the published address has to be replaced by the external one:
/// whether the two texts differ. The texts are compared as they are, not as
/// addresses, so `203.0.113.5` and `203.000.113.5` differ.
pub fn needs_update(external_ip: &String, published_ip: &String) -> (r: bool)
    ensures
        r == (external_ip@ != published_ip@),
{
    !(*external_ip == *published_ip)
}

/// When the published address equals the external one, the run does not
/// touch the DNS record: it goes on to report, or finishes.
pub proof fn lemma_unchanged_address_skips_update(
    config: Config,
    external_ip: String,
    addresses: Vec<String>,
    next: State,
    action: Action,
)
    requires
        addresses@.len() > 0,
        trimmed(addresses@[0]@) == external_ip@,
        transition(
            config,
            State::ResolvingHost { external_ip },
            Event::HostResolved(Ok(addresses)),
            next,
            action,
        ),
    ensures
        !(action is Update),
        next is Reporting || next is Finished,
{
}

/// Once a run reports or has finished, it asks for no record update.
pub proof fn lemma_reporting_never_updates(
    config: Config,
    state: State,
    event: Event,
    next: State,
    action: Action,
)
    requires
        state is Reporting || state is Finished,
        transition(config, state, event, next, action),
    ensures
        !(action is Update),
        next is Finished,
{
}

/// When the published address differs from the external one, the run asks
/// for one update that points the configured host at the external address.
pub proof fn lemma_changed_address_updates(
    config: Config,
    external_ip: String,
    addresses: Vec<String>,
    next: State,
    action: Action,
)
    requires
        addresses@.len() > 0,
        trimmed(addresses@[0]@) != external_ip@,
        transition(
            config,
            State::ResolvingHost { external_ip },
            Event::HostResolved(Ok(addresses)),
            next,
            action,
        ),
    ensures
        next is Updating,
        action matches Action::Update { host_name, record_value } && host_name@
            == config.host_name@ && record_value@ == external_ip@,
{
}

/// After the update, whatever its outcome, the run asks for no second one.
pub proof fn lemma_update_happens_once(
    config: Config,
    event: Event,
    next: State,
    action: Action,
)
    requires
        transition(config, State::Updating, event, next, action),
    ensures
        !(action is Update),
        next is Reporting || next is Finished,
{
}

/// Without `HOST_NAME` a run stops at once with a configuration error, before
/// any network call.
pub proof fn lemma_missing_host_name_stops_run(env: Environment, r: (Option<Config>, State, Action))
    requires
        env.host_name is None,
        started(env, r),
    ensures
        r.1 is Finished,
        r.2 matches Action::Exit(Err(RunError::Config(_))),
{
}

/// A lookup that finds no address stops the run with an error of its own,
/// which is neither a lookup failure nor a transport error.
pub proof fn lemma_no_address_stops_run(
    config: Config,
    external_ip: String,
    addresses: Vec<String>,
    next: State,
    action: Action,
)
    requires
        addresses@.len() == 0,
        transition(
            config,
            State::ResolvingHost { external_ip },
            Event::HostResolved(Ok(addresses)),
            next,
            action,
        ),
    ensures
        next is Finished,
        action matches Action::Exit(Err(RunError::NoAddress(h))) && h@ == config.host_name@,
{
}

/// A failure to fetch the external address stops the run with a transport
/// error, before any lookup or comparison.
pub proof fn lemma_fetch_failure_stops_run(
    config: Config,
    message: String,
    next: State,
    action: Action,
)
    requires
        transition(
            config,
            State::FetchingExternalIp,
            Event::ExternalIpFetched(Err(message)),
            next,
            action,
        ),
    ensures
        next is Finished,
        action == Action::Exit(Err(RunError::Transport(message))),
{
}

} // verus!
