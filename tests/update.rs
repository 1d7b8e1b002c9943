use cloudflare::framework::auth::Credentials;
use cloudflare::framework::client::{async_api, ClientConfig};
use dyndns::address::AddrParseError;
use dyndns::update::{
    ChangeAction, CloudflareUpdater, DNSUpdateError, RecordType, Route53Updater, CLOUDFLARE_TTL,
    ROUTE53_TTL,
};

fn route53_client() -> aws_sdk_route53::Client {
    let conf = aws_sdk_route53::Config::builder()
        .behavior_version(aws_sdk_route53::config::BehaviorVersion::latest())
        .region(aws_sdk_route53::config::Region::new("us-east-1"))
        .build();
    aws_sdk_route53::Client::from_conf(conf)
}

fn cloudflare_client() -> async_api::Client {
    async_api::Client::new(
        Credentials::UserAuthToken { token: String::from("SECRET-REDACTED") },
        ClientConfig::default(),
        cloudflare::framework::Environment::Production,
    )
    .unwrap()
}

#[test]
fn route53_change_is_an_upsert_of_one_a_record() {
    let updater = Route53Updater::new(route53_client(), String::from("Z123"));
    let c = updater.update(String::from("home.example.com"), String::from("203.0.113.5"));
    assert_eq!(c.hosted_zone_id, "Z123");
    assert_eq!(c.action, ChangeAction::Upsert);
    assert_eq!(c.name, "home.example.com");
    assert_eq!(c.record_type, RecordType::A);
    assert_eq!(c.ttl, 300);
    assert_eq!(ROUTE53_TTL, 300);
    assert_eq!(c.values, vec![String::from("203.0.113.5")]);
}

#[test]
fn cloudflare_update_carries_the_parsed_address() {
    let updater =
        CloudflareUpdater::new(cloudflare_client(), String::from("zone"), String::from("record"));
    let u = updater
        .update(String::from("home.example.com"), String::from("203.0.113.5"))
        .ok()
        .unwrap();
    assert_eq!(u.zone_identifier, "zone");
    assert_eq!(u.identifier, "record");
    assert_eq!(u.name, "home.example.com");
    assert_eq!(u.ttl, Some(60));
    assert_eq!(CLOUDFLARE_TTL, 60);
    assert_eq!(u.proxied, None);
    assert_eq!(u.content.octets, [203, 0, 113, 5]);
}

#[test]
fn cloudflare_rejects_a_value_that_is_no_ipv4_address() {
    let updater =
        CloudflareUpdater::new(cloudflare_client(), String::from("zone"), String::from("record"));
    let r = updater.update(String::from("home.example.com"), String::from("not-an-ip"));
    assert!(matches!(r, Err(DNSUpdateError::AddrParse(AddrParseError))));
}

#[test]
fn errors_convert_into_their_variants() {
    assert!(matches!(
        DNSUpdateError::from(AddrParseError),
        DNSUpdateError::AddrParse(AddrParseError)
    ));
}
