use vstd::prelude::*;
use crate::admin::admin::PulsarAdmin;
use crate::admin::error::Error;
use crate::text::{collapse_scheme, collapse_scheme_of, dash_as_underscore, equals_reading_dash_as_underscore, join3};

verus! {

/// The topic endpoints.
pub struct PulsarAdminTopics<'a> {
    pub admin: &'a PulsarAdmin,
}

/// Whether a topic's messages are stored.
#[derive(Clone, Copy, Debug, PartialEq, Eq, Structural)]
pub enum TopicDomain {
    Persistent,
    NonPersistent,
}

/// Where a topic is served.
#[derive(Debug)]
pub struct LookupResponse {
    pub broker_url: Option<String>,
    pub broker_url_tls: Option<String>,
    pub http_url: Option<String>,
    pub http_url_tls: Option<String>,
    pub native_url: Option<String>,
}

/// The path segment of a domain.
pub open spec fn domain_segment(d: TopicDomain) -> Seq<char> {
    match d {
        TopicDomain::Persistent => "persistent"@,
        TopicDomain::NonPersistent => "non-persistent"@,
    }
}

/// What `str::to_uppercase` makes of a string.
pub uninterp spec fn upper_of(s: Seq<char>) -> Seq<char>;

/// Relies on `str::to_uppercase`: the Unicode upper case of a string depends
/// on its characters alone.
#[verifier::external_body]
fn to_upper(s: &str) -> (r: String)
    ensures
        r@ == upper_of(s@),
{
    s.to_uppercase()
}

/// What `urlencoding::encode` makes of a string.
pub uninterp spec fn url_encoded(s: Seq<char>) -> Seq<char>;

/// An ASCII letter or digit, or one of `-`, `_`, `.`, `~`.
pub open spec fn unreserved(c: char) -> bool {
    ('a' <= c && c <= 'z') || ('A' <= c && c <= 'Z') || ('0' <= c && c <= '9') || c == '-' || c == '_' || c == '.'
        || c == '~'
}

/// Relies on `urlencoding::encode`: it percent-encodes every byte of the
/// string but ASCII alphanumerics and `-`, `_`, `.`, `~`, so the result
/// depends on the characters alone and leaves a string of those unchanged.
#[verifier::external_body]
fn percent_encode(s: &str) -> (r: String)
    ensures
        r@ == url_encoded(s@),
        (forall|i: int| 0 <= i < s@.len() ==> unreserved(#[trigger] s@[i])) ==> r@ == s@,
{
    urlencoding::encode(s).into_owned()
}

/// The message of an unknown domain name.
pub open spec fn invalid_domain_message(name: Seq<char>) -> Seq<char> {
    "invalid domain name ["@ + name + "]"@
}

impl TopicDomain {
    /// The domain named by `upper`, the upper-cased form of `name`, where `-`
    /// reads as `_`.
    pub fn parse_upper(upper: &str, name: &str) -> (r: Result<TopicDomain, Error>)
        ensures
            upper@.map_values(|c: char| dash_as_underscore(c)) == "PERSISTENT"@ <==> r == Ok::<
                TopicDomain,
                Error,
            >(TopicDomain::Persistent),
            upper@.map_values(|c: char| dash_as_underscore(c)) == "NON_PERSISTENT"@ <==> r == Ok::<
                TopicDomain,
                Error,
            >(TopicDomain::NonPersistent),
            r matches Err(e) ==> (e matches Error::Custom(m) && m@ == invalid_domain_message(name@)),
    {
        proof {
            reveal_strlit("PERSISTENT");
            reveal_strlit("NON_PERSISTENT");
            assert("PERSISTENT"@.len() != "NON_PERSISTENT"@.len());
        }
        if equals_reading_dash_as_underscore(upper, "PERSISTENT") {
            Ok(TopicDomain::Persistent)
        } else if equals_reading_dash_as_underscore(upper, "NON_PERSISTENT") {
            Ok(TopicDomain::NonPersistent)
        } else {
            Err(Error::Custom(join3("invalid domain name [", name, "]")))
        }
    }

    /// The domain `name` names, in any case, with `-` or `_`.
    pub fn parse(name: &str) -> (r: Result<TopicDomain, Error>)
        ensures
            upper_of(name@).map_values(|c: char| dash_as_underscore(c)) == "PERSISTENT"@ <==> r == Ok::<
                TopicDomain,
                Error,
            >(TopicDomain::Persistent),
            upper_of(name@).map_values(|c: char| dash_as_underscore(c)) == "NON_PERSISTENT"@ <==> r == Ok::<
                TopicDomain,
                Error,
            >(TopicDomain::NonPersistent),
            r matches Err(e) ==> (e matches Error::Custom(m) && m@ == invalid_domain_message(name@)),
    {
        let upper = to_upper(name);
        TopicDomain::parse_upper(upper.as_str(), name)
    }

    /// The domain's path segment.
    pub fn as_str(&self) -> (r: &'static str)
        ensures
            r@ == domain_segment(*self),
    {
        match self {
            TopicDomain::Persistent => "persistent",
            TopicDomain::NonPersistent => "non-persistent",
        }
    }

    /// The domain's path segment, owned.
    pub fn to_string(&self) -> (r: String)
        ensures
            r@ == domain_segment(*self),
    {
        String::from_str(self.as_str())
    }
}

/// A topic name as the endpoints address it: `domain://rest` becomes `domain/rest`.
pub fn canonical_topic(topic: &str) -> (r: String)
    ensures
        r@ == collapse_scheme(topic@),
{
    collapse_scheme_of(topic)
}

impl<'a> PulsarAdminTopics<'a> {
    /// Where the non-partitioned topics of `namespace` in `domain` are listed.
    pub fn list_url(&self, namespace: &str, domain: TopicDomain) -> (r: String)
        ensures
            r@ == self.admin@.service_url + "/admin/v2/"@ + domain_segment(domain) + "/"@ + namespace@,
    {
        self.admin.url4("/admin/v2/", domain.as_str(), "/", namespace)
    }

    /// Where the partitioned topics of `namespace` in `domain` are listed.
    pub fn list_partitioned_url(&self, namespace: &str, domain: TopicDomain) -> (r: String)
        ensures
            r@ == self.admin@.service_url + "/admin/v2/"@ + domain_segment(domain) + "/"@ + namespace@
                + "/partitioned"@,
    {
        self.admin.url5("/admin/v2/", domain.as_str(), "/", namespace, "/partitioned")
    }

    /// Where the broker serving `topic` is looked up.
    pub fn lookup_url(&self, topic: &str) -> (r: String)
        ensures
            r@ == self.admin@.service_url + "/lookup/v2/topic/"@ + collapse_scheme(topic@),
    {
        let t = canonical_topic(topic);
        self.admin.url2("/lookup/v2/topic/", t.as_str())
    }

    /// Where `topic` itself is created and deleted.
    pub fn topic_url(&self, topic: &str) -> (r: String)
        ensures
            r@ == self.admin@.service_url + "/admin/v2/"@ + collapse_scheme(topic@),
    {
        let t = canonical_topic(topic);
        self.admin.url2("/admin/v2/", t.as_str())
    }

    /// Where a resource `suffix` of `topic` lives, such as `/stats`.
    pub fn topic_resource_url(&self, topic: &str, suffix: &str) -> (r: String)
        ensures
            r@ == self.admin@.service_url + "/admin/v2/"@ + collapse_scheme(topic@) + suffix@,
    {
        let t = canonical_topic(topic);
        self.admin.url3("/admin/v2/", t.as_str(), suffix)
    }

    /// Where the statistics of `topic` are read.
    pub fn stats_url(&self, topic: &str) -> (r: String)
        ensures
            r@ == self.admin@.service_url + "/admin/v2/"@ + collapse_scheme(topic@) + "/stats"@,
    {
        self.topic_resource_url(topic, "/stats")
    }

    /// Where the permissions of `topic` are read.
    pub fn permissions_url(&self, topic: &str) -> (r: String)
        ensures
            r@ == self.admin@.service_url + "/admin/v2/"@ + collapse_scheme(topic@) + "/permissions"@,
    {
        self.topic_resource_url(topic, "/permissions")
    }

    /// Where the permissions of `role` on `topic` are granted and revoked.
    pub fn role_permissions_url(&self, topic: &str, role: &str) -> (r: String)
        ensures
            r@ == self.admin@.service_url + "/admin/v2/"@ + collapse_scheme(topic@) + "/permissions/"@ + role@,
    {
        let t = canonical_topic(topic);
        self.admin.url4("/admin/v2/", t.as_str(), "/permissions/", role)
    }

    /// Where the partitions of `topic` are created and deleted.
    pub fn partitions_url(&self, topic: &str) -> (r: String)
        ensures
            r@ == self.admin@.service_url + "/admin/v2/"@ + collapse_scheme(topic@) + "/partitions"@,
    {
        self.topic_resource_url(topic, "/partitions")
    }

    /// Where the subscriptions of `topic` are listed.
    pub fn subscriptions_url(&self, topic: &str) -> (r: String)
        ensures
            r@ == self.admin@.service_url + "/admin/v2/"@ + collapse_scheme(topic@) + "/subscriptions"@,
    {
        self.topic_resource_url(topic, "/subscriptions")
    }

    /// Where a subscription of `topic` is removed, given its already
    /// percent-encoded name `encoded`.
    pub fn subscription_url_encoded(&self, topic: &str, encoded: &str) -> (r: String)
        ensures
            r@ == self.admin@.service_url + "/admin/v2/"@ + collapse_scheme(topic@) + "/subscription/"@ + encoded@,
    {
        let t = canonical_topic(topic);
        self.admin.url4("/admin/v2/", t.as_str(), "/subscription/", encoded)
    }

    /// Where `subscription` of `topic` is removed.
    pub fn subscription_url(&self, topic: &str, subscription: &str) -> (r: String)
        ensures
            r@ == self.admin@.service_url + "/admin/v2/"@ + collapse_scheme(topic@) + "/subscription/"@
                + url_encoded(subscription@),
    {
        let encoded = percent_encode(subscription);
        self.subscription_url_encoded(topic, encoded.as_str())
    }
}

} // verus!
