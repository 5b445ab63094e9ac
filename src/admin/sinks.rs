use vstd::prelude::*;
use crate::admin::admin::PulsarAdmin;

verus! {

/// The sink endpoints.
pub struct PulsarAdminSinks<'a> {
    pub admin: &'a PulsarAdmin,
}

/// A sink connector offered by the cluster.
#[derive(Debug)]
pub struct SinkDef {
    pub name: String,
    pub description: String,
    pub id: String,
    pub version: String,
    pub image_repository: Option<String>,
    pub image_tag: Option<String>,
    pub type_class_name: Option<String>,
    pub source_class: Option<String>,
    pub sink_class: Option<String>,
    pub source_config_class: Option<String>,
    pub sink_config_class: Option<String>,
    pub source_type_class_name: Option<String>,
    pub sink_type_class_name: Option<String>,
    pub default_schema_type: Option<String>,
    pub jar: String,
}

impl<'a> PulsarAdminSinks<'a> {
    /// Where the sinks of `namespace` are listed.
    pub fn list_url(&self, namespace: &str) -> (r: String)
        ensures
            r@ == self.admin@.service_url + "/admin/v3/sinks/"@ + namespace@,
    {
        self.admin.url2("/admin/v3/sinks/", namespace)
    }

    /// Where the built-in sink connectors are listed.
    pub fn builtin_sinks_url(&self) -> (r: String)
        ensures
            r@ == self.admin@.service_url + "/admin/v3/sinks/builtinsinks"@,
    {
        self.admin.url("/admin/v3/sinks/builtinsinks")
    }
}

} // verus!
