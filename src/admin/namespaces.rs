use vstd::prelude::*;
use crate::admin::admin::PulsarAdmin;

verus! {

/// The namespace endpoints.
pub struct PulsarAdminNamespaces {
    pub admin: PulsarAdmin,
}

/// How a namespace's topics are split into bundles.
#[derive(Debug)]
pub struct BundlesData {
    pub num_bundles: u64,
    pub boundaries: Vec<String>,
}

/// The granted actions of a permission list, in order, without the empty entries.
pub open spec fn present(entries: Seq<Option<String>>) -> Seq<String>
    decreases entries.len(),
{
    if entries.len() == 0 {
        Seq::empty()
    } else {
        let rest = present(entries.drop_last());
        match entries.last() {
            Some(s) => rest.push(s),
            None => rest,
        }
    }
}

/// The granted actions of `entries`, dropping the empty ones.
pub fn present_permissions(entries: Vec<Option<String>>) -> (r: Vec<String>)
    ensures
        r@ == present(entries@),
{
    let ghost all = entries@;
    let n = entries.len();
    let mut rest = entries;
    let mut out: Vec<String> = Vec::new();
    let mut i: usize = 0;
    while rest.len() > 0
        invariant
            all.len() == n,
            i <= all.len(),
            i + rest@.len() == all.len(),
            rest@ == all.skip(i as int),
            out@ == present(all.take(i as int)),
        decreases rest@.len(),
    {
        assert(i < all.len());
        let e = rest.remove(0);
        assert(all.take(i + 1).drop_last() =~= all.take(i as int));
        assert(all.take(i + 1).last() == e);
        match e {
            Some(s) => out.push(s),
            None => {},
        }
        i = i + 1;
        assert(rest@ =~= all.skip(i as int));
    }
    assert(all.take(i as int) =~= all);
    out
}

impl PulsarAdminNamespaces {
    /// Where `namespace` is created and its policies read; listing under a
    /// tenant uses the same path with the tenant's name.
    pub fn namespace_url(&self, namespace: &str) -> (r: String)
        ensures
            r@ == self.admin@.service_url + "/admin/v2/namespaces/"@ + namespace@,
    {
        self.admin.url2("/admin/v2/namespaces/", namespace)
    }

    /// Where the permissions of `namespace` are read.
    pub fn permissions_url(&self, namespace: &str) -> (r: String)
        ensures
            r@ == self.admin@.service_url + "/admin/v2/namespaces/"@ + namespace@ + "/permissions"@,
    {
        self.admin.url3("/admin/v2/namespaces/", namespace, "/permissions")
    }

    /// Where the permissions of `role` on `namespace` are granted and revoked.
    pub fn role_permissions_url(&self, namespace: &str, role: &str) -> (r: String)
        ensures
            r@ == self.admin@.service_url + "/admin/v2/namespaces/"@ + namespace@ + "/permissions/"@ + role@,
    {
        self.admin.url4("/admin/v2/namespaces/", namespace, "/permissions/", role)
    }

    /// Where the persistence policies of `namespace` are set and removed.
    pub fn persistence_url(&self, namespace: &str) -> (r: String)
        ensures
            r@ == self.admin@.service_url + "/admin/v2/namespaces/"@ + namespace@ + "/persistence"@,
    {
        self.admin.url3("/admin/v2/namespaces/", namespace, "/persistence")
    }
}

} // verus!
