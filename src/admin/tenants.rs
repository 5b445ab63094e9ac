use vstd::prelude::*;
use crate::admin::admin::PulsarAdmin;

verus! {

/// The tenant endpoints.
pub struct PulsarAdminTenants<'a> {
    pub admin: &'a PulsarAdmin,
}

/// Who administers a tenant and which clusters it may use.
#[derive(Debug)]
pub struct TenantInfo {
    pub admin_roles: Vec<String>,
    pub allowed_clusters: Vec<String>,
}

/// The clusters a new tenant is created with: those asked for, or, when
/// none are and the service has exactly one cluster, that one.
pub open spec fn clusters_for_new_tenant(asked: Seq<String>, available: Seq<String>) -> Seq<String> {
    if asked.len() == 0 && available.len() == 1 {
        available
    } else {
        asked
    }
}

impl TenantInfo {
    /// Fills in the allowed clusters of a tenant about to be created, given
    /// the clusters the service has.
    pub fn with_default_cluster(self, available: &Vec<String>) -> (r: TenantInfo)
        ensures
            r.admin_roles@ == self.admin_roles@,
            r.allowed_clusters@.len() == clusters_for_new_tenant(self.allowed_clusters@, available@).len(),
            forall|i: int| 0 <= i < r.allowed_clusters@.len() ==> #[trigger] r.allowed_clusters@[i]@
                == clusters_for_new_tenant(self.allowed_clusters@, available@)[i]@,
    {
        let mut info = self;
        if info.allowed_clusters.len() == 0 && available.len() == 1 {
            let only = available[0].clone();
            info.allowed_clusters.push(only);
        }
        info
    }
}

impl<'a> PulsarAdminTenants<'a> {
    /// Where the tenants are listed.
    pub fn list_url(&self) -> (r: String)
        ensures
            r@ == self.admin@.service_url + "/admin/v2/tenants"@,
    {
        self.admin.url("/admin/v2/tenants")
    }

    /// Where `tenant` is created and read.
    pub fn tenant_url(&self, tenant: &str) -> (r: String)
        ensures
            r@ == self.admin@.service_url + "/admin/v2/tenants/"@ + tenant@,
    {
        self.admin.url2("/admin/v2/tenants/", tenant)
    }
}

} // verus!
