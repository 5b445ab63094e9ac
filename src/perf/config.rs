use vstd::prelude::*;

verus! {

/// The live parameters of the workload.
#[derive(Clone, Copy, Debug, PartialEq, Eq, Structural)]
pub struct DynamicConfig {
    /// Messages per second; `0` means unlimited.
    pub rate: u32,
    pub num_clients: u32,
    pub num_producers_per_client: u32,
    pub message_size: usize,
}

/// A partial update of a [`DynamicConfig`]: an absent field keeps its value.
#[derive(Clone, Copy, Debug, PartialEq, Eq, Structural)]
pub struct DynamicConfigPatch {
    pub rate: Option<u32>,
    pub num_clients: Option<u32>,
    pub num_producers_per_client: Option<u32>,
    pub message_size: Option<usize>,
}

/// The value of `field` after a patch that sets it to `update`, if anything.
pub open spec fn patched_field<T>(field: T, update: Option<T>) -> T {
    match update {
        Some(v) => v,
        None => field,
    }
}

/// The configuration that results from applying `p` to `c`.
pub open spec fn patched(c: DynamicConfig, p: DynamicConfigPatch) -> DynamicConfig {
    DynamicConfig {
        rate: patched_field(c.rate, p.rate),
        num_clients: patched_field(c.num_clients, p.num_clients),
        num_producers_per_client: patched_field(c.num_producers_per_client, p.num_producers_per_client),
        message_size: patched_field(c.message_size, p.message_size),
    }
}

impl DynamicConfigPatch {
    /// A patch that changes nothing.
    pub fn empty() -> (r: DynamicConfigPatch)
        ensures
            r.rate is None,
            r.num_clients is None,
            r.num_producers_per_client is None,
            r.message_size is None,
    {
        DynamicConfigPatch { rate: None, num_clients: None, num_producers_per_client: None, message_size: None }
    }
}

impl DynamicConfig {
    /// Applies the fields that `patch` sets; the others keep their values.
    pub fn apply(&mut self, patch: &DynamicConfigPatch)
        ensures
            *final(self) == patched(*old(self), *patch),
    {
        if let Some(rate) = patch.rate {
            self.rate = rate;
        }
        if let Some(n) = patch.num_clients {
            self.num_clients = n;
        }
        if let Some(n) = patch.num_producers_per_client {
            self.num_producers_per_client = n;
        }
        if let Some(size) = patch.message_size {
            self.message_size = size;
        }
    }
}

/// A patch that sets only the rate leaves every other field as it was.
pub proof fn lemma_rate_patch_keeps_other_fields(c: DynamicConfig, p: DynamicConfigPatch)
    requires
        p.num_clients is None,
        p.num_producers_per_client is None,
        p.message_size is None,
    ensures
        patched(c, p).num_clients == c.num_clients,
        patched(c, p).num_producers_per_client == c.num_producers_per_client,
        patched(c, p).message_size == c.message_size,
        p.rate matches Some(r) ==> patched(c, p).rate == r,
        p.rate is None ==> patched(c, p) == c,
{
}

} // verus!
