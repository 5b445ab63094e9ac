use vstd::prelude::*;
use crate::admin::clusters::PulsarAdminClusters;
use crate::admin::functions::PulsarAdminFunctions;
use crate::admin::namespaces::PulsarAdminNamespaces;
use crate::admin::sinks::PulsarAdminSinks;
use crate::admin::tenants::PulsarAdminTenants;
use crate::admin::topics::PulsarAdminTopics;
use crate::text::{copy_opt, opt_view, str_equals};

verus! {

/// What a [`PulsarAdmin`] holds, as a value.
pub struct AdminView {
    pub service_url: Seq<char>,
    pub auth_name: Option<Seq<char>>,
    pub auth_params: Option<Seq<char>>,
}

/// The `Authorization` header value sent with every call: a bearer token
/// when the method is `token` and parameters are given.
pub open spec fn bearer_header(v: AdminView) -> Option<Seq<char>> {
    if v.auth_name == Some("token"@) && v.auth_params is Some {
        Some("Bearer "@ + v.auth_params.unwrap())
    } else {
        None
    }
}

/// The address of a management service and the credentials to call it with.
#[derive(Debug)]
pub struct PulsarAdmin {
    service_url: String,
    auth_name: Option<String>,
    auth_params: Option<String>,
}

impl View for PulsarAdmin {
    type V = AdminView;

    closed spec fn view(&self) -> AdminView {
        AdminView {
            service_url: self.service_url@,
            auth_name: opt_view(self.auth_name),
            auth_params: opt_view(self.auth_params),
        }
    }
}

impl PulsarAdmin {
    pub fn new(service_url: String, auth_name: Option<String>, auth_params: Option<String>) -> (r: PulsarAdmin)
        ensures
            r@ == (AdminView {
                service_url: service_url@,
                auth_name: opt_view(auth_name),
                auth_params: opt_view(auth_params),
            }),
    {
        PulsarAdmin { service_url, auth_name, auth_params }
    }

    /// An independent copy of this admin handle.
    pub fn duplicate(&self) -> (r: PulsarAdmin)
        ensures
            r@ == self@,
    {
        PulsarAdmin {
            service_url: self.service_url.clone(),
            auth_name: copy_opt(&self.auth_name),
            auth_params: copy_opt(&self.auth_params),
        }
    }

    pub fn service_url(&self) -> (r: &String)
        ensures
            r@ == self@.service_url,
    {
        &self.service_url
    }

    /// The `Authorization` header value for every call, if any.
    pub fn auth_header(&self) -> (r: Option<String>)
        ensures
            opt_view(r) == bearer_header(self@),
    {
        proof { reveal_strlit("token"); }
        match (&self.auth_name, &self.auth_params) {
            (Some(name), Some(params)) => {
                if str_equals(name.as_str(), "token") {
                    let mut h = String::from_str("Bearer ");
                    h.append(params.as_str());
                    Some(h)
                } else {
                    None
                }
            },
            _ => None,
        }
    }

    /// The full address of the endpoint at `path`.
    pub fn url(&self, path: &str) -> (r: String)
        ensures
            r@ == self@.service_url + path@,
    {
        let mut s = self.service_url.clone();
        s.append(path);
        s
    }

    /// The full address of the endpoint at path `a` then `b`.
    pub fn url2(&self, a: &str, b: &str) -> (r: String)
        ensures
            r@ == self@.service_url + a@ + b@,
    {
        let mut s = self.url(a);
        s.append(b);
        s
    }

    /// The full address of the endpoint at path `a`, `b`, `c` in order.
    pub fn url3(&self, a: &str, b: &str, c: &str) -> (r: String)
        ensures
            r@ == self@.service_url + a@ + b@ + c@,
    {
        let mut s = self.url2(a, b);
        s.append(c);
        s
    }

    /// The full address of the endpoint at path `a`, `b`, `c`, `d` in order.
    pub fn url4(&self, a: &str, b: &str, c: &str, d: &str) -> (r: String)
        ensures
            r@ == self@.service_url + a@ + b@ + c@ + d@,
    {
        let mut s = self.url3(a, b, c);
        s.append(d);
        s
    }

    /// The full address of the endpoint at path `a`, `b`, `c`, `d`, `e` in order.
    pub fn url5(&self, a: &str, b: &str, c: &str, d: &str, e: &str) -> (r: String)
        ensures
            r@ == self@.service_url + a@ + b@ + c@ + d@ + e@,
    {
        let mut s = self.url4(a, b, c, d);
        s.append(e);
        s
    }

    pub fn clusters(&self) -> (r: PulsarAdminClusters<'_>)
        ensures
            r.admin == self,
    {
        PulsarAdminClusters { admin: self }
    }

    pub fn tenants(&self) -> (r: PulsarAdminTenants<'_>)
        ensures
            r.admin == self,
    {
        PulsarAdminTenants { admin: self }
    }

    pub fn namespaces(&self) -> (r: PulsarAdminNamespaces)
        ensures
            r.admin@ == self@,
    {
        PulsarAdminNamespaces { admin: self.duplicate() }
    }

    pub fn topics(&self) -> (r: PulsarAdminTopics<'_>)
        ensures
            r.admin == self,
    {
        PulsarAdminTopics { admin: self }
    }

    pub fn functions(&self) -> (r: PulsarAdminFunctions<'_>)
        ensures
            r.admin == self,
    {
        PulsarAdminFunctions { admin: self }
    }

    pub fn sinks(&self) -> (r: PulsarAdminSinks<'_>)
        ensures
            r.admin == self,
    {
        PulsarAdminSinks { admin: self }
    }
}

} // verus!
