use pulsar_smith::admin::admin::PulsarAdmin;
use pulsar_smith::admin::error::Error;
use pulsar_smith::admin::namespaces::present_permissions;
use pulsar_smith::admin::tenants::TenantInfo;
use pulsar_smith::admin::topics::{canonical_topic, TopicDomain};

fn admin() -> PulsarAdmin {
    PulsarAdmin::new("http://localhost:8080".to_string(), None, None)
}

#[test]
fn token_auth_sends_a_bearer_header() {
    let a = PulsarAdmin::new("http://h".to_string(), Some("token".to_string()), Some("SECRET-REDACTED".to_string()));
    assert_eq!(a.auth_header(), Some("Bearer SECRET-REDACTED".to_string()));
    let b = PulsarAdmin::new("http://h".to_string(), Some("oauth2".to_string()), Some("x".to_string()));
    assert_eq!(b.auth_header(), None);
    let c = PulsarAdmin::new("http://h".to_string(), Some("token".to_string()), None);
    assert_eq!(c.auth_header(), None);
    assert_eq!(admin().auth_header(), None);
}

#[test]
fn endpoint_addresses() {
    let a = admin();
    assert_eq!(a.clusters().list_url(), "http://localhost:8080/admin/v2/clusters");
    assert_eq!(a.tenants().list_url(), "http://localhost:8080/admin/v2/tenants");
    assert_eq!(a.tenants().tenant_url("acme"), "http://localhost:8080/admin/v2/tenants/acme");
    assert_eq!(a.functions().list_url("acme/ns"), "http://localhost:8080/admin/v3/functions/acme/ns");
    assert_eq!(a.sinks().list_url("acme/ns"), "http://localhost:8080/admin/v3/sinks/acme/ns");
    assert_eq!(a.sinks().builtin_sinks_url(), "http://localhost:8080/admin/v3/sinks/builtinsinks");
    let ns = a.namespaces();
    assert_eq!(ns.namespace_url("acme/ns"), "http://localhost:8080/admin/v2/namespaces/acme/ns");
    assert_eq!(ns.permissions_url("acme/ns"), "http://localhost:8080/admin/v2/namespaces/acme/ns/permissions");
    assert_eq!(
        ns.role_permissions_url("acme/ns", "ops"),
        "http://localhost:8080/admin/v2/namespaces/acme/ns/permissions/ops"
    );
    assert_eq!(ns.persistence_url("acme/ns"), "http://localhost:8080/admin/v2/namespaces/acme/ns/persistence");
}

#[test]
fn topic_endpoint_addresses() {
    let a = admin();
    let t = a.topics();
    assert_eq!(t.list_url("acme/ns", TopicDomain::Persistent), "http://localhost:8080/admin/v2/persistent/acme/ns");
    assert_eq!(
        t.list_partitioned_url("acme/ns", TopicDomain::NonPersistent),
        "http://localhost:8080/admin/v2/non-persistent/acme/ns/partitioned"
    );
    let topic = "persistent://acme/ns/orders";
    assert_eq!(t.lookup_url(topic), "http://localhost:8080/lookup/v2/topic/persistent/acme/ns/orders");
    assert_eq!(t.topic_url(topic), "http://localhost:8080/admin/v2/persistent/acme/ns/orders");
    assert_eq!(t.stats_url(topic), "http://localhost:8080/admin/v2/persistent/acme/ns/orders/stats");
    assert_eq!(t.permissions_url(topic), "http://localhost:8080/admin/v2/persistent/acme/ns/orders/permissions");
    assert_eq!(
        t.role_permissions_url(topic, "ops"),
        "http://localhost:8080/admin/v2/persistent/acme/ns/orders/permissions/ops"
    );
    assert_eq!(t.partitions_url(topic), "http://localhost:8080/admin/v2/persistent/acme/ns/orders/partitions");
    assert_eq!(
        t.subscriptions_url(topic),
        "http://localhost:8080/admin/v2/persistent/acme/ns/orders/subscriptions"
    );
}

#[test]
fn subscription_names_are_percent_encoded() {
    let a = admin();
    let t = a.topics();
    assert_eq!(
        t.subscription_url("persistent://acme/ns/orders", "my sub/1"),
        "http://localhost:8080/admin/v2/persistent/acme/ns/orders/subscription/my%20sub%2F1"
    );
    assert_eq!(
        t.subscription_url("persistent://acme/ns/orders", "plain-sub_1.x~"),
        "http://localhost:8080/admin/v2/persistent/acme/ns/orders/subscription/plain-sub_1.x~"
    );
    assert_eq!(
        t.subscription_url_encoded("a://b", "x%20y"),
        "http://localhost:8080/admin/v2/a/b/subscription/x%20y"
    );
}

#[test]
fn canonical_topic_collapses_every_scheme_separator() {
    assert_eq!(canonical_topic("persistent://t/n/x"), "persistent/t/n/x");
    assert_eq!(canonical_topic("a://b://c"), "a/b/c");
    assert_eq!(canonical_topic(":/x:"), ":/x:");
    assert_eq!(canonical_topic(""), "");
}

#[test]
fn topic_domain_parses_any_case_and_separator() {
    assert_eq!(TopicDomain::parse("persistent").ok(), Some(TopicDomain::Persistent));
    assert_eq!(TopicDomain::parse("Non-Persistent").ok(), Some(TopicDomain::NonPersistent));
    assert_eq!(TopicDomain::parse("NON_PERSISTENT").ok(), Some(TopicDomain::NonPersistent));
    match TopicDomain::parse("durable") {
        Err(Error::Custom(m)) => assert_eq!(m, "invalid domain name [durable]"),
        other => panic!("unexpected {:?}", other),
    }
    assert_eq!(TopicDomain::Persistent.to_string(), "persistent");
    assert_eq!(TopicDomain::NonPersistent.as_str(), "non-persistent");
}

#[test]
fn parse_upper_reads_dash_as_underscore() {
    assert_eq!(TopicDomain::parse_upper("NON-PERSISTENT", "x").ok(), Some(TopicDomain::NonPersistent));
    assert!(TopicDomain::parse_upper("persistent", "persistent").is_err());
}

#[test]
fn tenant_gets_the_only_cluster_by_default() {
    let info = TenantInfo { admin_roles: vec!["ops".to_string()], allowed_clusters: vec![] };
    let filled = info.with_default_cluster(&vec!["standalone".to_string()]);
    assert_eq!(filled.allowed_clusters, vec!["standalone".to_string()]);
    assert_eq!(filled.admin_roles, vec!["ops".to_string()]);
    let info = TenantInfo { admin_roles: vec![], allowed_clusters: vec![] };
    let two = info.with_default_cluster(&vec!["a".to_string(), "b".to_string()]);
    assert!(two.allowed_clusters.is_empty());
    let info = TenantInfo { admin_roles: vec![], allowed_clusters: vec!["c".to_string()] };
    let kept = info.with_default_cluster(&vec!["a".to_string()]);
    assert_eq!(kept.allowed_clusters, vec!["c".to_string()]);
}

#[test]
fn permission_lists_drop_empty_entries() {
    let got = present_permissions(vec![Some("produce".to_string()), None, Some("consume".to_string())]);
    assert_eq!(got, vec!["produce".to_string(), "consume".to_string()]);
    assert!(present_permissions(vec![None]).is_empty());
}

#[test]
fn admin_copy_and_address() {
    let a = admin();
    let b = a.duplicate();
    assert_eq!(b.service_url(), "http://localhost:8080");
    assert_eq!(a.url("/x"), "http://localhost:8080/x");
}
