use vstd::prelude::*;
use crate::admin::admin::PulsarAdmin;

verus! {

/// The cluster endpoints.
pub struct PulsarAdminClusters<'a> {
    pub admin: &'a PulsarAdmin,
}

impl<'a> PulsarAdminClusters<'a> {
    /// Where the cluster names are listed.
    pub fn list_url(&self) -> (r: String)
        ensures
            r@ == self.admin@.service_url + "/admin/v2/clusters"@,
    {
        self.admin.url("/admin/v2/clusters")
    }
}

} // verus!
