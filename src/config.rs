use vstd::prelude::*;
use vstd::string::StrSliceExecFns;

verus! {

/// The DNS providers whose records this updater can change.
#[derive(Clone, Copy, Debug, PartialEq, Eq, Structural)]
pub enum Provider {
    Route53,
    Cloudflare,
}

/// The environment variables that configure a run.
#[derive(Clone, Copy, Debug, PartialEq, Eq, Structural)]
pub enum EnvVar {
    Provider,
    HostName,
    HostedZoneId,
    AssumeRoleArn,
    CloudflareZoneIdentifier,
    CloudflareIdentifier,
    CloudflareToken,
    PushGatewayHost,
}

pub open spec fn var_name(v: EnvVar) -> Seq<char> {
    match v {
        EnvVar::Provider => "PROVIDER"@,
        EnvVar::HostName => "HOST_NAME"@,
        EnvVar::HostedZoneId => "HOSTED_ZONE_ID"@,
        EnvVar::AssumeRoleArn => "ASSUME_ROLE_ARN"@,
        EnvVar::CloudflareZoneIdentifier => "CLOUDFLARE_ZONE_IDENTIFIER"@,
        EnvVar::CloudflareIdentifier => "CLOUDFLARE_IDENTIFIER"@,
        EnvVar::CloudflareToken => "CLOUDFLARE_TOKEN"@,
        EnvVar::PushGatewayHost => "PUSH_GATEWAY_HOST"@,
    }
}

/// The provider that a value of `PROVIDER` selects, if any.
pub open spec fn provider_named(s: Seq<char>) -> Option<Provider> {
    if s == "route53"@ {
        Some(Provider::Route53)
    } else if s == "cloudflare"@ {
        Some(Provider::Cloudflare)
    } else {
        None
    }
}

/// Whether two texts are the same character for character.
pub fn same_text(a: &str, b: &str) -> (r: bool)
    ensures
        r == (a@ == b@),
{
    let n = a.unicode_len();
    if n != b.unicode_len() {
        return false;
    }
    let mut i: usize = 0;
    while i < n
        invariant
            n == a@.len() == b@.len(),
            i <= n,
            a@.subrange(0, i as int) == b@.subrange(0, i as int),
        decreases n - i,
    {
        if a.get_char(i) != b.get_char(i) {
            assert(a@[i as int] != b@[i as int]);
            return false;
        }
        assert(a@.subrange(0, i + 1) =~= a@.subrange(0, i as int).push(a@[i as int]));
        assert(b@.subrange(0, i + 1) =~= b@.subrange(0, i as int).push(b@[i as int]));
        i = i + 1;
    }
    assert(a@ =~= a@.subrange(0, n as int));
    assert(b@ =~= b@.subrange(0, n as int));
    true
}

impl Provider {
    /// The provider named by `s`: `route53` or `cloudflare`.
    pub fn from_str(s: &str) -> (r: Result<Provider, String>)
        ensures
            provider_named(s@) matches Some(p) ==> r == Ok::<Provider, String>(p),
            provider_named(s@) is None ==> (r matches Err(e) && e@ == "not found"@),
    {
        proof {
            reveal_strlit("route53");
            reveal_strlit("cloudflare");
            reveal_strlit("not found");
        }
        if same_text(s, "route53") {
            Ok(Provider::Route53)
        } else if same_text(s, "cloudflare") {
            Ok(Provider::Cloudflare)
        } else {
            Err("not found".to_owned())
        }
    }
}

impl EnvVar {
    /// The name of the variable in the environment.
    pub fn name(&self) -> (r: &'static str)
        ensures
            r@ == var_name(*self),
    {
        match self {
            EnvVar::Provider => "PROVIDER",
            EnvVar::HostName => "HOST_NAME",
            EnvVar::HostedZoneId => "HOSTED_ZONE_ID",
            EnvVar::AssumeRoleArn => "ASSUME_ROLE_ARN",
            EnvVar::CloudflareZoneIdentifier => "CLOUDFLARE_ZONE_IDENTIFIER",
            EnvVar::CloudflareIdentifier => "CLOUDFLARE_IDENTIFIER",
            EnvVar::CloudflareToken => "CLOUDFLARE_TOKEN",
            EnvVar::PushGatewayHost => "PUSH_GATEWAY_HOST",
        }
    }
}

/// The values of the configuration variables, each `None` where unset.
pub struct Environment {
    pub provider: Option<String>,
    pub host_name: Option<String>,
    pub hosted_zone_id: Option<String>,
    pub assume_role_arn: Option<String>,
    pub cloudflare_zone_identifier: Option<String>,
    pub cloudflare_identifier: Option<String>,
    pub cloudflare_token: Option<String>,
    pub push_gateway_host: Option<String>,
}

/// What each provider needs to change a record.
pub enum ProviderConfig {
    Route53 { hosted_zone_id: String, assume_role_arn: Option<String> },
    Cloudflare { zone_identifier: String, identifier: String, token: String },
}

/// The configuration of one run, read once before any network call.
pub struct Config {
    pub host_name: String,
    pub provider: ProviderConfig,
    /// Base URL of the metrics push gateway; no metrics are pushed without it.
    pub push_gateway_host: Option<String>,
}

#[derive(Debug)]
pub enum ConfigError {
    /// A variable that the run needs is unset.
    Missing(EnvVar),
    /// `PROVIDER` names no known provider.
    UnknownProvider(String),
}

/// The configuration that the environment gives, or the first thing wrong
/// with it: `PROVIDER`, then `HOST_NAME`, then the selected provider's
/// variables, in that order. `ASSUME_ROLE_ARN` and `PUSH_GATEWAY_HOST` are
/// optional; the other provider's variables are not read.
pub open spec fn config_from(env: Environment) -> Result<Config, ConfigError> {
    match env.provider {
        None => Err(ConfigError::Missing(EnvVar::Provider)),
        Some(p) => match provider_named(p@) {
            None => Err(ConfigError::UnknownProvider(p)),
            Some(kind) => match env.host_name {
                None => Err(ConfigError::Missing(EnvVar::HostName)),
                Some(host_name) => match provider_config_from(kind, env) {
                    Err(e) => Err(e),
                    Ok(provider) => Ok(
                        Config { host_name, provider, push_gateway_host: env.push_gateway_host },
                    ),
                },
            },
        },
    }
}

pub open spec fn provider_config_from(kind: Provider, env: Environment) -> Result<
    ProviderConfig,
    ConfigError,
> {
    match kind {
        Provider::Route53 => match env.hosted_zone_id {
            None => Err(ConfigError::Missing(EnvVar::HostedZoneId)),
            Some(hosted_zone_id) => Ok(
                ProviderConfig::Route53 { hosted_zone_id, assume_role_arn: env.assume_role_arn },
            ),
        },
        Provider::Cloudflare => match (
            env.cloudflare_zone_identifier,
            env.cloudflare_identifier,
            env.cloudflare_token,
        ) {
            (None, _, _) => Err(ConfigError::Missing(EnvVar::CloudflareZoneIdentifier)),
            (Some(_), None, _) => Err(ConfigError::Missing(EnvVar::CloudflareIdentifier)),
            (Some(_), Some(_), None) => Err(ConfigError::Missing(EnvVar::CloudflareToken)),
            (Some(zone_identifier), Some(identifier), Some(token)) => Ok(
                ProviderConfig::Cloudflare { zone_identifier, identifier, token },
            ),
        },
    }
}

/// The provider that a provider configuration is for.
pub open spec fn kind_of(p: ProviderConfig) -> Provider {
    match p {
        ProviderConfig::Route53 { .. } => Provider::Route53,
        ProviderConfig::Cloudflare { .. } => Provider::Cloudflare,
    }
}

impl ProviderConfig {
    /// The provider that this configuration is for.
    pub fn kind(&self) -> (r: Provider)
        ensures
            r == kind_of(*self),
    {
        match self {
            ProviderConfig::Route53 { .. } => Provider::Route53,
            ProviderConfig::Cloudflare { .. } => Provider::Cloudflare,
        }
    }
}

/// Builds the configuration from the environment's values.
pub fn load_config(env: Environment) -> (r: Result<Config, ConfigError>)
    ensures
        r == config_from(env),
{
    let ghost e = env;
    let Environment {
        provider,
        host_name,
        hosted_zone_id,
        assume_role_arn,
        cloudflare_zone_identifier,
        cloudflare_identifier,
        cloudflare_token,
        push_gateway_host,
    } = env;
    let provider = match provider {
        None => { return Err(ConfigError::Missing(EnvVar::Provider)); },
        Some(p) => p,
    };
    let kind = match Provider::from_str(provider.as_str()) {
        Ok(k) => k,
        Err(_) => { return Err(ConfigError::UnknownProvider(provider)); },
    };
    let host_name = match host_name {
        None => { return Err(ConfigError::Missing(EnvVar::HostName)); },
        Some(h) => h,
    };
    let provider_config = match kind {
        Provider::Route53 => match hosted_zone_id {
            None => { return Err(ConfigError::Missing(EnvVar::HostedZoneId)); },
            Some(hosted_zone_id) => ProviderConfig::Route53 { hosted_zone_id, assume_role_arn },
        },
        Provider::Cloudflare => match (
            cloudflare_zone_identifier,
            cloudflare_identifier,
            cloudflare_token,
        ) {
            (None, _, _) => { return Err(ConfigError::Missing(EnvVar::CloudflareZoneIdentifier)); },
            (Some(_), None, _) => { return Err(ConfigError::Missing(EnvVar::CloudflareIdentifier)); },
            (Some(_), Some(_), None) => { return Err(ConfigError::Missing(EnvVar::CloudflareToken)); },
            (Some(zone_identifier), Some(identifier), Some(token)) => {
                ProviderConfig::Cloudflare { zone_identifier, identifier, token }
            },
        },
    };
    Ok(Config { host_name, provider: provider_config, push_gateway_host })
}

} // verus!
