use vstd::prelude::*;
use crate::admin::admin::PulsarAdmin;

verus! {

/// The function endpoints.
pub struct PulsarAdminFunctions<'a> {
    pub admin: &'a PulsarAdmin,
}

impl<'a> PulsarAdminFunctions<'a> {
    /// Where the functions of `namespace` are listed.
    pub fn list_url(&self, namespace: &str) -> (r: String)
        ensures
            r@ == self.admin@.service_url + "/admin/v3/functions/"@ + namespace@,
    {
        self.admin.url2("/admin/v3/functions/", namespace)
    }
}

} // verus!
