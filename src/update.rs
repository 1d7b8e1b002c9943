use vstd::prelude::*;
use crate::address::{is_ipv4_text, parse_ipv4, AddrParseError, Ipv4Address};

verus! {

#[verifier::external_type_specification]
#[verifier::external_body]
pub struct ExRoute53Client(aws_sdk_route53::Client);

#[verifier::external_type_specification]
#[verifier::external_body]
pub struct ExRoute53Error(aws_sdk_route53::Error);

#[verifier::external_type_specification]
#[verifier::external_body]
pub struct ExCloudflareClient(cloudflare::framework::client::async_api::Client);

#[verifier::external_type_specification]
#[verifier::external_body]
pub struct ExApiFailure(cloudflare::framework::response::ApiFailure);

/// Why a DNS record could not be changed.
pub enum DNSUpdateError {
    /// Route53 rejected the change, or it could not be sent.
    Route53(aws_sdk_route53::Error),
    /// The new value is not the text of an IPv4 address.
    AddrParse(AddrParseError),
    /// The Cloudflare API rejected the update, or it could not be sent.
    Cloudflare(cloudflare::framework::response::ApiFailure),
}

impl From<aws_sdk_route53::Error> for DNSUpdateError {
    fn from(e: aws_sdk_route53::Error) -> (r: Self) {
        DNSUpdateError::Route53(e)
    }
}

impl vstd::std_specs::convert::FromSpecImpl<aws_sdk_route53::Error> for DNSUpdateError {
    open spec fn obeys_from_spec() -> bool {
        true
    }

    open spec fn from_spec(e: aws_sdk_route53::Error) -> Self {
        DNSUpdateError::Route53(e)
    }
}

impl From<AddrParseError> for DNSUpdateError {
    fn from(e: AddrParseError) -> (r: Self) {
        DNSUpdateError::AddrParse(e)
    }
}

impl vstd::std_specs::convert::FromSpecImpl<AddrParseError> for DNSUpdateError {
    open spec fn obeys_from_spec() -> bool {
        true
    }

    open spec fn from_spec(e: AddrParseError) -> Self {
        DNSUpdateError::AddrParse(e)
    }
}

impl From<cloudflare::framework::response::ApiFailure> for DNSUpdateError {
    fn from(e: cloudflare::framework::response::ApiFailure) -> (r: Self) {
        DNSUpdateError::Cloudflare(e)
    }
}

impl vstd::std_specs::convert::FromSpecImpl<cloudflare::framework::response::ApiFailure> for
    DNSUpdateError {
    open spec fn obeys_from_spec() -> bool {
        true
    }

    open spec fn from_spec(e: cloudflare::framework::response::ApiFailure) -> Self {
        DNSUpdateError::Cloudflare(e)
    }
}

/// Time to live of a record written to Route53, in seconds.
pub const ROUTE53_TTL: i64 = 300;

/// Time to live of a record written to Cloudflare, in seconds.
pub const CLOUDFLARE_TTL: u32 = 60;

#[derive(Clone, Copy, Debug, PartialEq, Eq, Structural)]
pub enum ChangeAction {
    /// Create the record set, or replace it where it exists.
    Upsert,
}

#[derive(Clone, Copy, Debug, PartialEq, Eq, Structural)]
pub enum RecordType {
    A,
}

/// One change to a Route53 hosted zone: a record set of one value.
pub struct Route53Change {
    pub hosted_zone_id: String,
    pub action: ChangeAction,
    pub name: String,
    pub record_type: RecordType,
    pub ttl: i64,
    pub values: Vec<String>,
}

/// An update of one existing Cloudflare record, named by its zone and its id.
pub struct CloudflareRecordUpdate {
    pub zone_identifier: String,
    pub identifier: String,
    pub name: String,
    pub ttl: Option<u32>,
    pub proxied: Option<bool>,
    pub content: Ipv4Address,
}

/// Changes records in a Route53 hosted zone.
pub struct Route53Updater {
    client: aws_sdk_route53::Client,
    hosted_zone_id: String,
}

impl Route53Updater {
    pub fn new(client: aws_sdk_route53::Client, hosted_zone_id: String) -> (r: Self)
        ensures
            r.client_value() == client,
            r.hosted_zone_id() == hosted_zone_id,
    {
        Self { client, hosted_zone_id }
    }

    pub closed spec fn client_value(&self) -> aws_sdk_route53::Client {
        self.client
    }

    pub closed spec fn hosted_zone_id(&self) -> String {
        self.hosted_zone_id
    }

    /// The client that sends the changes.
    pub fn client(&self) -> (r: &aws_sdk_route53::Client)
        ensures
            *r == self.client_value(),
    {
        &self.client
    }

    /// The change that points `host_name` at `record_value`: an upsert of an
    /// A record with that single value.
    pub fn update(&self, host_name: String, record_value: String) -> (r: Route53Change)
        ensures
            r.hosted_zone_id == self.hosted_zone_id(),
            r.action == ChangeAction::Upsert,
            r.name == host_name,
            r.record_type == RecordType::A,
            r.ttl == ROUTE53_TTL,
            r.values@ == seq![record_value],
    {
        Route53Change {
            hosted_zone_id: self.hosted_zone_id.clone(),
            action: ChangeAction::Upsert,
            name: host_name,
            record_type: RecordType::A,
            ttl: ROUTE53_TTL,
            values: vec![record_value],
        }
    }
}

/// Changes one existing record of a Cloudflare zone.
pub struct CloudflareUpdater {
    client: cloudflare::framework::client::async_api::Client,
    zone_identifier: String,
    identifier: String,
}

impl CloudflareUpdater {
    pub fn new(
        client: cloudflare::framework::client::async_api::Client,
        zone_identifier: String,
        identifier: String,
    ) -> (r: Self)
        ensures
            r.client_value() == client,
            r.zone_identifier() == zone_identifier,
            r.identifier() == identifier,
    {
        CloudflareUpdater { client, zone_identifier, identifier }
    }

    pub closed spec fn client_value(&self) -> cloudflare::framework::client::async_api::Client {
        self.client
    }

    pub closed spec fn zone_identifier(&self) -> String {
        self.zone_identifier
    }

    pub closed spec fn identifier(&self) -> String {
        self.identifier
    }

    /// The client that sends the updates.
    pub fn client(&self) -> (r: &cloudflare::framework::client::async_api::Client)
        ensures
            *r == self.client_value(),
    {
        &self.client
    }

    /// The update that points `host_name` at the IPv4 address written in
    /// `record_value`; an address-format error, and nothing to send, where
    /// `record_value` is not such an address.
    pub fn update(&self, host_name: String, record_value: String) -> (r: Result<
        CloudflareRecordUpdate,
        DNSUpdateError,
    >)
        ensures
            r is Err <==> forall|o: Seq<u8>| !is_ipv4_text(record_value@, o),
            r matches Err(e) ==> e is AddrParse,
            r matches Ok(u) ==> {
                &&& u.zone_identifier == self.zone_identifier()
                &&& u.identifier == self.identifier()
                &&& u.name == host_name
                &&& u.ttl == Some(CLOUDFLARE_TTL)
                &&& u.proxied is None
                &&& is_ipv4_text(record_value@, u.content.octets@)
            },
    {
        let content = match parse_ipv4(record_value.as_str()) {
            Ok(a) => a,
            Err(e) => { return Err(DNSUpdateError::from(e)); },
        };
        Ok(
            CloudflareRecordUpdate {
                zone_identifier: self.zone_identifier.clone(),
                identifier: self.identifier.clone(),
                name: host_name,
                ttl: Some(CLOUDFLARE_TTL),
                proxied: None,
                content,
            },
        )
    }
}

} // verus!
