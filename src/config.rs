//! Named connection contexts: which cluster to reach, as which user.
use vstd::prelude::*;
use crate::error::Error;
use crate::text::{copy_opt, join3, opt_view, str_equals};

verus! {

/// Everything needed to connect to one cluster.
#[derive(Debug)]
pub struct PulsarConfig {
    pub url: String,
    pub admin_url: String,
    pub auth_name: Option<String>,
    pub auth_params: Option<String>,
    pub allow_insecure_connection: bool,
    pub tls_hostname_verification_enabled: bool,
}

/// The service address used when none is given.
pub open spec fn default_url() -> Seq<char> {
    "pulsar://localhost:6650"@
}

/// The management address used when none is given.
pub open spec fn default_admin_url() -> Seq<char> {
    "http://localhost:8080"@
}

fn or_default(given: Option<String>, default: &str) -> (r: String)
    ensures
        given matches Some(s) ==> r@ == s@,
        given is None ==> r@ == default@,
{
    match given {
        Some(s) => s,
        None => String::from_str(default),
    }
}

impl PulsarConfig {
    /// The settings given on the command line, with the local defaults for
    /// what is left out: insecure connections refused, host names verified.
    pub fn from_flags(
        url: Option<String>,
        admin_url: Option<String>,
        auth_name: Option<String>,
        auth_params: Option<String>,
        allow_insecure_connection: Option<bool>,
        tls_hostname_verification_enabled: Option<bool>,
    ) -> (r: PulsarConfig)
        ensures
            url matches Some(u) ==> r.url@ == u@,
            url is None ==> r.url@ == default_url(),
            admin_url matches Some(u) ==> r.admin_url@ == u@,
            admin_url is None ==> r.admin_url@ == default_admin_url(),
            opt_view(r.auth_name) == opt_view(auth_name),
            opt_view(r.auth_params) == opt_view(auth_params),
            r.allow_insecure_connection == (allow_insecure_connection == Some(true)),
            r.tls_hostname_verification_enabled == (tls_hostname_verification_enabled != Some(false)),
    {
        PulsarConfig {
            url: or_default(url, "pulsar://localhost:6650"),
            admin_url: or_default(admin_url, "http://localhost:8080"),
            auth_name,
            auth_params,
            allow_insecure_connection: match allow_insecure_connection {
                Some(b) => b,
                None => false,
            },
            tls_hostname_verification_enabled: match tls_hostname_verification_enabled {
                Some(b) => b,
                None => true,
            },
        }
    }
}

/// Whether the connection settings come from the command line rather than
/// from a context: when a service address is given, or when a token is asked
/// for with both credentials given.
pub fn settings_from_flags(url_given: bool, token_command: bool, auth_name_given: bool, auth_params_given: bool) -> (r: bool)
    ensures
        r == (url_given || (token_command && auth_name_given && auth_params_given)),
{
    url_given || (token_command && auth_name_given && auth_params_given)
}

/// The contexts, clusters and users of the configuration file.
#[derive(Debug)]
pub struct Configs {
    pub clusters: Vec<ClusterItem>,
    pub users: Vec<UserItem>,
    pub contexts: Vec<ContextItem>,
    pub current_context: Option<String>,
}

#[derive(Debug)]
pub struct ClusterItem {
    pub name: String,
    pub cluster: Cluster,
}

#[derive(Debug)]
pub struct Cluster {
    pub url: String,
    pub admin_service_url: Option<String>,
    pub allow_insecure_connection: bool,
}

#[derive(Debug)]
pub struct UserItem {
    pub name: String,
    pub user: User,
}

#[derive(Debug)]
pub struct User {
    pub auth_name: Option<String>,
    pub auth_params: Option<String>,
}

#[derive(Debug)]
pub struct ContextItem {
    pub name: String,
    pub context: Context,
}

/// A context: a cluster and a user, both by name.
#[derive(Debug)]
pub struct Context {
    pub cluster: String,
    pub user: String,
}

/// The position of the first item of `s` whose name is `name`, or `-1`.
pub open spec fn first_named(names: Seq<Seq<char>>, name: Seq<char>) -> int
    decreases names.len(),
{
    if names.len() == 0 {
        -1
    } else if first_named(names.drop_last(), name) >= 0 {
        first_named(names.drop_last(), name)
    } else if names.last() == name {
        names.len() - 1
    } else {
        -1
    }
}

pub open spec fn context_names(c: &Configs) -> Seq<Seq<char>> {
    c.contexts@.map_values(|x: ContextItem| x.name@)
}

pub open spec fn cluster_names(c: &Configs) -> Seq<Seq<char>> {
    c.clusters@.map_values(|x: ClusterItem| x.name@)
}

pub open spec fn user_names(c: &Configs) -> Seq<Seq<char>> {
    c.users@.map_values(|x: UserItem| x.name@)
}

pub open spec fn context_index(c: &Configs, name: Seq<char>) -> int {
    first_named(context_names(c), name)
}

pub open spec fn cluster_index(c: &Configs, name: Seq<char>) -> int {
    first_named(cluster_names(c), name)
}

pub open spec fn user_index(c: &Configs, name: Seq<char>) -> int {
    first_named(user_names(c), name)
}

/// `c` holds the settings of `cluster` and `user`.
pub open spec fn resolved_as(c: PulsarConfig, cluster: Cluster, user: User) -> bool {
    &&& c.url@ == cluster.url@
    &&& opt_view(cluster.admin_service_url) == Some(c.admin_url@)
    &&& c.allow_insecure_connection == cluster.allow_insecure_connection
    &&& opt_view(c.auth_name) == opt_view(user.auth_name)
    &&& opt_view(c.auth_params) == opt_view(user.auth_params)
    &&& c.tls_hostname_verification_enabled
}

/// The message of a context that cannot be resolved.
pub open spec fn missing_context_message(name: Seq<char>) -> Seq<char> {
    "context ["@ + name + "] not exist"@
}

/// The message of a cluster that has no management address.
pub open spec fn missing_admin_url_message(cluster: Seq<char>) -> Seq<char> {
    "admin-url not defined for cluster ["@ + cluster + "]"@
}

proof fn lemma_first_named_step(s: Seq<Seq<char>>, name: Seq<char>, i: int)
    requires
        0 <= i < s.len(),
        first_named(s.take(i), name) < 0,
    ensures
        s[i] == name ==> first_named(s.take(i + 1), name) == i,
        s[i] != name ==> first_named(s.take(i + 1), name) < 0,
{
    assert(s.take(i + 1).drop_last() =~= s.take(i));
}

proof fn lemma_first_named_prefix(s: Seq<Seq<char>>, name: Seq<char>, i: int)
    requires
        0 <= i <= s.len(),
        first_named(s.take(i), name) >= 0,
    ensures
        first_named(s, name) == first_named(s.take(i), name),
    decreases s.len() - i,
{
    if i < s.len() {
        assert(s.take(i + 1).drop_last() =~= s.take(i));
        lemma_first_named_prefix(s, name, i + 1);
    } else {
        assert(s.take(i) =~= s);
    }
}

proof fn lemma_first_named_range(s: Seq<Seq<char>>, name: Seq<char>)
    ensures
        -1 <= first_named(s, name) < s.len(),
        first_named(s, name) >= 0 ==> s[first_named(s, name)] == name,
    decreases s.len(),
{
    if s.len() > 0 {
        lemma_first_named_range(s.drop_last(), name);
    }
}

impl Configs {
    fn find_context(&self, name: &str) -> (r: Option<usize>)
        ensures
            r matches Some(i) ==> i == context_index(self, name@),
            r is None ==> context_index(self, name@) < 0,
    {
        let mut i: usize = 0;
        while i < self.contexts.len()
            invariant
                i <= self.contexts@.len(),
                first_named(context_names(self).take(i as int), name@) < 0,
                context_names(self).len() == self.contexts@.len(),
            decreases self.contexts@.len() - i,
        {
            proof { lemma_first_named_step(context_names(self), name@, i as int); }
            if str_equals(self.contexts[i].name.as_str(), name) {
                proof { lemma_first_named_prefix(context_names(self), name@, i + 1); }
                return Some(i);
            }
            i = i + 1;
        }
        assert(context_names(self).take(i as int) =~= context_names(self));
        None
    }

    fn find_cluster(&self, name: &str) -> (r: Option<usize>)
        ensures
            r matches Some(i) ==> i == cluster_index(self, name@),
            r is None ==> cluster_index(self, name@) < 0,
    {
        let mut i: usize = 0;
        while i < self.clusters.len()
            invariant
                i <= self.clusters@.len(),
                first_named(cluster_names(self).take(i as int), name@) < 0,
                cluster_names(self).len() == self.clusters@.len(),
            decreases self.clusters@.len() - i,
        {
            proof { lemma_first_named_step(cluster_names(self), name@, i as int); }
            if str_equals(self.clusters[i].name.as_str(), name) {
                proof { lemma_first_named_prefix(cluster_names(self), name@, i + 1); }
                return Some(i);
            }
            i = i + 1;
        }
        assert(cluster_names(self).take(i as int) =~= cluster_names(self));
        None
    }

    fn find_user(&self, name: &str) -> (r: Option<usize>)
        ensures
            r matches Some(i) ==> i == user_index(self, name@),
            r is None ==> user_index(self, name@) < 0,
    {
        let mut i: usize = 0;
        while i < self.users.len()
            invariant
                i <= self.users@.len(),
                first_named(user_names(self).take(i as int), name@) < 0,
                user_names(self).len() == self.users@.len(),
            decreases self.users@.len() - i,
        {
            proof { lemma_first_named_step(user_names(self), name@, i as int); }
            if str_equals(self.users[i].name.as_str(), name) {
                proof { lemma_first_named_prefix(user_names(self), name@, i + 1); }
                return Some(i);
            }
            i = i + 1;
        }
        assert(user_names(self).take(i as int) =~= user_names(self));
        None
    }

    /// The connection settings of the context named `context_name`: the first
    /// context of that name, with the first cluster and the first user that
    /// carry the names it gives.
    pub fn get_pulsar_config(&self, context_name: &str) -> (r: Result<PulsarConfig, Error>)
        ensures
            ({
                let ci = context_index(self, context_name@);
                let cl = cluster_index(self, self.contexts@[ci].context.cluster@);
                let us = user_index(self, self.contexts@[ci].context.user@);
                &&& (ci < 0 || cl < 0 || us < 0) ==> (r matches Err(Error::Custom(m))
                    && m@ == missing_context_message(context_name@))
                &&& (ci >= 0 && cl >= 0 && us >= 0 && self.clusters@[cl].cluster.admin_service_url is None)
                    ==> (r matches Err(Error::Custom(m)) && m@ == missing_admin_url_message(self.clusters@[cl].name@))
                &&& (ci >= 0 && cl >= 0 && us >= 0 && self.clusters@[cl].cluster.admin_service_url is Some)
                    ==> (r matches Ok(c) && resolved_as(c, self.clusters@[cl].cluster, self.users@[us].user))
            }),
    {
        let ci = match self.find_context(context_name) {
            Some(i) => i,
            None => return Err(Error::Custom(join3("context [", context_name, "] not exist"))),
        };
        proof { lemma_first_named_range(context_names(self), context_name@); }
        let context = &self.contexts[ci].context;
        let cl = match self.find_cluster(context.cluster.as_str()) {
            Some(i) => i,
            None => return Err(Error::Custom(join3("context [", context_name, "] not exist"))),
        };
        let us = match self.find_user(context.user.as_str()) {
            Some(i) => i,
            None => return Err(Error::Custom(join3("context [", context_name, "] not exist"))),
        };
        proof {
            lemma_first_named_range(cluster_names(self), context.cluster@);
            lemma_first_named_range(user_names(self), context.user@);
        }
        let cluster_item = &self.clusters[cl];
        let user = &self.users[us].user;
        match &cluster_item.cluster.admin_service_url {
            Some(admin_url) => Ok(PulsarConfig {
                url: cluster_item.cluster.url.clone(),
                admin_url: admin_url.clone(),
                auth_name: copy_opt(&user.auth_name),
                auth_params: copy_opt(&user.auth_params),
                allow_insecure_connection: cluster_item.cluster.allow_insecure_connection,
                tls_hostname_verification_enabled: true,
            }),
            None => Err(Error::Custom(join3("admin-url not defined for cluster [", cluster_item.name.as_str(), "]"))),
        }
    }

    pub fn has_current_context(&self) -> (r: bool)
        ensures
            r == self.current_context is Some,
    {
        self.current_context.is_some()
    }

    /// The connection settings of the current context.
    pub fn get_current_pulsar_config(&self) -> (r: Result<PulsarConfig, Error>)
        ensures
            self.current_context is None ==> (r matches Err(Error::Custom(m)) && m@ == "current context not set"@),
            self.current_context matches Some(name) ==> (r is Ok <==> ({
                let ci = context_index(self, name@);
                let cl = cluster_index(self, self.contexts@[ci].context.cluster@);
                let us = user_index(self, self.contexts@[ci].context.user@);
                ci >= 0 && cl >= 0 && us >= 0 && self.clusters@[cl].cluster.admin_service_url is Some
            })),
    {
        match &self.current_context {
            Some(current) => self.get_pulsar_config(current.as_str()),
            None => Err(Error::Custom(String::from_str("current context not set"))),
        }
    }
}

} // verus!
